//! The hexagonal grid: a row-major field of cells and its geometric layout.
//!
//! Positions live on an exact lattice. A cell is one unit wide and
//! `2 / sqrt(3)` (about 1.154701) units high; horizontal positions are
//! counted in half widths and vertical ones in quarter heights. Odd rows are
//! shifted right by half a cell, and consecutive rows are three quarters of
//! a cell height apart.
use vstd::prelude::*;
use vstd::arithmetic::div_mod::{
    lemma_fundamental_div_mod,
    lemma_fundamental_div_mod_converse,
    lemma_multiply_divide_lt,
};

use crate::error::ConfigError;
use crate::terrain::HexType;

verus! {

/// Horizontal centre, in half cell widths, of the cell in column `x` of row `y`.
pub open spec fn center_x_at(x: int, y: int) -> int {
    2 * x + 1 + y % 2
}

/// Vertical centre, in quarter cell heights, of the cells of row `y`.
pub open spec fn center_y_at(y: int) -> int {
    3 * y + 2
}

/// Horizontal extent, in half cell widths, of a grid: the rightmost centre
/// plus one cell radius.
pub open spec fn extent_x(size_x: int, size_y: int) -> int {
    if size_y > 1 {
        2 * size_x + 1
    } else {
        2 * size_x
    }
}

/// Vertical extent, in quarter cell heights, of a grid: the lowest centre
/// plus one cell radius.
pub open spec fn extent_y(size_y: int) -> int {
    3 * size_y + 1
}

/// What `remap` and `new` answer for the requested dimensions.
pub open spec fn dims_check(size_x: int, size_y: int) -> Result<(), ConfigError> {
    if size_x == 0 || size_y == 0 {
        Err(ConfigError::ZeroSize)
    } else if size_x * size_y > usize::MAX {
        Err(ConfigError::TooManyCells)
    } else {
        Ok(())
    }
}

/// One cell: its terrain and its centre on the lattice.
#[derive(Clone, Copy, Debug, PartialEq, Eq, Structural)]
pub struct Hex {
    pub terrain_type: HexType,
    /// In half cell widths.
    pub center_x: u64,
    /// In quarter cell heights.
    pub center_y: u64,
}

/// The abstract content of a grid: its dimensions and the row-major
/// sequence of terrain; every centre follows from these.
pub struct GridView {
    pub size_x: nat,
    pub size_y: nat,
    pub terrain: Seq<HexType>,
}

impl GridView {
    pub open spec fn wf(self) -> bool {
        &&& 0 < self.size_x
        &&& 0 < self.size_y
        &&& self.size_x <= u32::MAX
        &&& self.size_y <= u32::MAX
        &&& self.size_x * self.size_y <= usize::MAX
        &&& self.terrain.len() == self.size_x * self.size_y
    }

    pub open spec fn col(self, i: int) -> int {
        i % (self.size_x as int)
    }

    pub open spec fn row(self, i: int) -> int {
        i / (self.size_x as int)
    }

    pub open spec fn terrain_at(self, x: int, y: int) -> HexType {
        self.terrain[y * self.size_x + x]
    }

    /// The cell at row-major index `i`.
    pub open spec fn hex(self, i: int) -> Hex {
        Hex {
            terrain_type: self.terrain[i],
            center_x: center_x_at(self.col(i), self.row(i)) as u64,
            center_y: center_y_at(self.row(i)) as u64,
        }
    }

    pub open spec fn cells(self) -> Seq<Hex> {
        Seq::new(self.terrain.len(), |i: int| self.hex(i))
    }

    /// A grid of the given dimensions with every cell of one terrain.
    pub open spec fn filled(size_x: nat, size_y: nat, t: HexType) -> GridView {
        GridView { size_x, size_y, terrain: Seq::new(size_x * size_y, |i: int| t) }
    }

    /// The grid resized to `nx` by `ny`: a cell inside both the old and
    /// the new bounds keeps its terrain, every other cell gets `fill`.
    pub open spec fn remapped(self, nx: nat, ny: nat, fill: HexType) -> GridView {
        GridView {
            size_x: nx,
            size_y: ny,
            terrain: Seq::new(
                nx * ny,
                |i: int|
                    {
                        let x = i % (nx as int);
                        let y = i / (nx as int);
                        if x < self.size_x && y < self.size_y {
                            self.terrain_at(x, y)
                        } else {
                            fill
                        }
                    },
            ),
        }
    }
}

/// A hexagonal grid whose cells always agree with its dimensions: there are
/// `size_x * size_y` of them, in row-major order, each centred where the
/// lattice puts it.
#[derive(Debug)]
pub struct GridMap {
    size_x: u32,
    size_y: u32,
    field: Vec<Hex>,
}

impl View for GridMap {
    type V = GridView;

    closed spec fn view(&self) -> GridView {
        GridView {
            size_x: self.size_x as nat,
            size_y: self.size_y as nat,
            terrain: self.field@.map_values(|h: Hex| h.terrain_type),
        }
    }
}

impl GridMap {
    /// The stored cells are those that the view determines.
    pub closed spec fn laid_out(&self) -> bool {
        self.field@ == self@.cells()
    }

    pub open spec fn wf(&self) -> bool {
        self@.wf() && self.laid_out()
    }

    /// Makes a grid of the given dimensions with every cell of terrain `fill`.
    pub fn new(size_x: u32, size_y: u32, fill: HexType) -> (r: Result<GridMap, ConfigError>)
        ensures
            r is Err <==> dims_check(size_x as int, size_y as int) is Err,
            r is Err ==> r->Err_0 == dims_check(size_x as int, size_y as int)->Err_0,
            r is Ok ==> r->Ok_0.wf() && r->Ok_0@ == GridView::filled(
                size_x as nat,
                size_y as nat,
                fill,
            ),
    {
        let mut m = GridMap {
            size_x: 1,
            size_y: 1,
            field: vec![Hex { terrain_type: fill, center_x: 1, center_y: 2 }],
        };
        proof {
            assert(m.field@ =~= m@.cells());
        }
        let ghost single = m@;
        match m.remap(size_x, size_y, fill) {
            Ok(()) => {
                proof {
                    let filled = GridView::filled(size_x as nat, size_y as nat, fill);
                    assert(single.terrain =~= seq![fill]);
                    assert forall|i: int| 0 <= i < m@.terrain.len() implies m@.terrain[i]
                        == filled.terrain[i] by {
                        lemma_fundamental_div_mod(i, size_x as int);
                        assert(0 <= i % (size_x as int));
                        assert(0 <= i / (size_x as int));
                    }
                    assert(m@.terrain =~= filled.terrain);
                }
                Ok(m)
            },
            Err(e) => Err(e),
        }
    }

    pub fn size_x(&self) -> (r: u32)
        ensures
            r == self@.size_x,
    {
        self.size_x
    }

    pub fn size_y(&self) -> (r: u32)
        ensures
            r == self@.size_y,
    {
        self.size_y
    }

    /// The number of cells.
    pub fn get_area(&self) -> (r: usize)
        requires
            self.wf(),
        ensures
            r == self@.size_x * self@.size_y,
            r == self@.terrain.len(),
    {
        self.field.len()
    }

    /// The cell at row-major index `i`.
    pub fn hex(&self, i: usize) -> (h: Hex)
        requires
            self.wf(),
            i < self@.terrain.len(),
        ensures
            h == self@.hex(i as int),
    {
        self.field[i]
    }

    /// Gives the cell at row-major index `i` the terrain `t`; its position
    /// stays.
    pub fn set_terrain(&mut self, i: usize, t: HexType)
        requires
            old(self).wf(),
            i < old(self)@.terrain.len(),
        ensures
            final(self).wf(),
            final(self)@ == (GridView { terrain: old(self)@.terrain.update(i as int, t), ..old(self)@ }),
    {
        let h = self.field[i];
        self.field.set(i, Hex { terrain_type: t, ..h });
        proof {
            assert(self@.terrain =~= old(self)@.terrain.update(i as int, t));
            assert(self.field@ =~= self@.cells());
        }
    }

    /// Horizontal extent of the grid in half cell widths.
    pub fn absolute_size_x(&self) -> (r: u64)
        requires
            self.wf(),
        ensures
            r == extent_x(self@.size_x as int, self@.size_y as int),
    {
        if self.size_y > 1 {
            2 * (self.size_x as u64) + 1
        } else {
            2 * (self.size_x as u64)
        }
    }

    /// Vertical extent of the grid in quarter cell heights.
    pub fn absolute_size_y(&self) -> (r: u64)
        requires
            self.wf(),
        ensures
            r == extent_y(self@.size_y as int),
    {
        3 * (self.size_y as u64) + 1
    }

    /// A separate grid with the same content.
    pub fn duplicate(&self) -> (r: GridMap)
        requires
            self.wf(),
        ensures
            r.wf(),
            r@ == self@,
    {
        let mut field: Vec<Hex> = Vec::with_capacity(self.field.len());
        let mut i: usize = 0;
        while i < self.field.len()
            invariant
                i <= self.field@.len(),
                field@ == self.field@.subrange(0, i as int),
            decreases self.field@.len() - i,
        {
            field.push(self.field[i]);
            i += 1;
            proof {
                assert(field@ =~= self.field@.subrange(0, i as int));
            }
        }
        proof {
            assert(field@ =~= self.field@);
        }
        GridMap { size_x: self.size_x, size_y: self.size_y, field }
    }

    /// Resizes the grid; see `GridView::remapped`. Centres are recomputed
    /// for the new dimensions. On a zero or unindexable dimension nothing
    /// changes and the error is reported.
    pub fn remap(&mut self, new_size_x: u32, new_size_y: u32, fill: HexType) -> (r: Result<(), ConfigError>)
        requires
            old(self).wf(),
        ensures
            final(self).wf(),
            r == dims_check(new_size_x as int, new_size_y as int),
            r is Err ==> *final(self) == *old(self),
            r is Ok ==> final(self)@ == old(self)@.remapped(new_size_x as nat, new_size_y as nat, fill),
    {
        if new_size_x == 0 || new_size_y == 0 {
            return Err(ConfigError::ZeroSize);
        }
        let nx = new_size_x as usize;
        let ny = new_size_y as usize;
        let n = match nx.checked_mul(ny) {
            Some(n) => n,
            None => {
                return Err(ConfigError::TooManyCells);
            },
        };
        let sx = self.size_x as usize;
        let sy = self.size_y as usize;
        let ghost target = self@.remapped(nx as nat, ny as nat, fill);
        let mut cells: Vec<Hex> = Vec::with_capacity(n);
        let mut i: usize = 0;
        while i < n
            invariant
                self.wf(),
                sx == self@.size_x,
                sy == self@.size_y,
                0 < nx <= u32::MAX,
                0 < ny <= u32::MAX,
                n == nx * ny,
                target == self@.remapped(nx as nat, ny as nat, fill),
                i <= n,
                cells@.len() == i,
                forall|k: int| 0 <= k < i ==> cells@[k] == target.hex(k),
            decreases n - i,
        {
            let x = i % nx;
            let y = i / nx;
            proof {
                lemma_multiply_divide_lt(i as int, nx as int, ny as int);
            }
            let t = if x < sx && y < sy {
                proof {
                    assert(y * sx + x < sx * sy) by (nonlinear_arith)
                        requires
                            y < sy,
                            x < sx,
                    ;
                    assert(self.field@[y * sx + x] == self@.hex(y * sx + x));
                }
                self.field[y * sx + x].terrain_type
            } else {
                fill
            };
            let cx: u64 = 2 * (x as u64) + 1 + (y as u64) % 2;
            let cy: u64 = 3 * (y as u64) + 2;
            cells.push(Hex { terrain_type: t, center_x: cx, center_y: cy });
            i += 1;
        }
        self.size_x = new_size_x;
        self.size_y = new_size_y;
        self.field = cells;
        proof {
            assert forall|k: int| 0 <= k < n implies self@.terrain[k] == target.terrain[k] by {
                assert(self.field@[k] == target.hex(k));
            }
            assert(self@.terrain =~= target.terrain);
            assert(self.field@ =~= self@.cells());
        }
        Ok(())
    }
}

/// Remapping twice in a row to the same dimensions and fill gives what the
/// first remap gave: terrain and centres stay as they are.
pub proof fn lemma_remap_idempotent(g: GridView, nx: nat, ny: nat, fill: HexType)
    requires
        g.wf(),
        0 < nx,
        0 < ny,
    ensures
        g.remapped(nx, ny, fill).remapped(nx, ny, fill) == g.remapped(nx, ny, fill),
        g.remapped(nx, ny, fill).remapped(nx, ny, fill).cells() == g.remapped(nx, ny, fill).cells(),
{
    let once = g.remapped(nx, ny, fill);
    let twice = once.remapped(nx, ny, fill);
    assert forall|i: int| 0 <= i < nx * ny implies twice.terrain[i] == once.terrain[i] by {
        lemma_fundamental_div_mod(i, nx as int);
        lemma_multiply_divide_lt(i, nx as int, ny as int);
        assert(0 <= i % (nx as int) < nx);
        assert(0 <= i / (nx as int));
        assert((i / (nx as int)) * nx + i % (nx as int) == i) by (nonlinear_arith)
            requires
                i == nx * (i / (nx as int)) + i % (nx as int),
        ;
    }
    assert(twice.terrain =~= once.terrain);
}

/// Remapping a grid to its own dimensions changes nothing.
pub proof fn lemma_remap_same_size(g: GridView, fill: HexType)
    requires
        g.wf(),
    ensures
        g.remapped(g.size_x, g.size_y, fill) == g,
{
    let r = g.remapped(g.size_x, g.size_y, fill);
    assert forall|i: int| 0 <= i < g.terrain.len() implies r.terrain[i] == g.terrain[i] by {
        lemma_fundamental_div_mod(i, g.size_x as int);
        lemma_multiply_divide_lt(i, g.size_x as int, g.size_y as int);
        assert(0 <= i % (g.size_x as int) < g.size_x);
        assert(0 <= i / (g.size_x as int));
        assert((i / (g.size_x as int)) * g.size_x + i % (g.size_x as int) == i) by (nonlinear_arith)
            requires
                i == g.size_x * (i / (g.size_x as int)) + i % (g.size_x as int),
        ;
    }
    assert(r.terrain =~= g.terrain);
}

/// The extents bound every cell: each centre lies at least one cell radius
/// (one half width, two quarter heights) inside them, and some cell
/// reaches each bound.
pub proof fn lemma_extent_bounds_centres(g: GridView)
    requires
        g.wf(),
    ensures
        forall|i: int|
            0 <= i < g.terrain.len() ==> #[trigger] g.hex(i).center_x + 1 <= extent_x(
                g.size_x as int,
                g.size_y as int,
            ) && g.hex(i).center_y + 2 <= extent_y(g.size_y as int),
        exists|i: int|
            0 <= i < g.terrain.len() && #[trigger] g.hex(i).center_x + 1 == extent_x(
                g.size_x as int,
                g.size_y as int,
            ),
        exists|i: int|
            0 <= i < g.terrain.len() && #[trigger] g.hex(i).center_y + 2 == extent_y(
                g.size_y as int,
            ),
{
    let sx = g.size_x as int;
    let sy = g.size_y as int;
    assert forall|i: int| 0 <= i < g.terrain.len() implies #[trigger] g.hex(i).center_x + 1
        <= extent_x(sx, sy) && g.hex(i).center_y + 2 <= extent_y(sy) by {
        lemma_fundamental_div_mod(i, sx);
        lemma_multiply_divide_lt(i, sx, sy);
        assert(0 <= i % sx < sx);
        assert(0 <= i / sx < sy);
        assert(sy == 1 ==> i / sx == 0);
        assert(center_y_at(i / sx) <= 3 * sy - 1);
    }
    // The last cell of the lowest row reaches the vertical bound.
    let last = sx * sy - 1;
    assert(last == sx * (sy - 1) + (sx - 1)) by (nonlinear_arith)
        requires
            last == sx * sy - 1,
    ;
    assert(0 <= last) by (nonlinear_arith)
        requires
            last == sx * sy - 1,
            sx > 0,
            sy > 0,
    ;
    lemma_fundamental_div_mod_converse(last, sx, sy - 1, sx - 1);
    assert(g.hex(last).center_y + 2 == extent_y(sy));
    if sy > 1 {
        // The last cell of row 1, an odd row, reaches the horizontal bound.
        let k = 2 * sx - 1;
        assert(k < sx * sy) by (nonlinear_arith)
            requires
                k == 2 * sx - 1,
                sy > 1,
                sx > 0,
        ;
        lemma_fundamental_div_mod_converse(k, sx, 1, sx - 1);
        assert(g.hex(k).center_x + 1 == extent_x(sx, sy));
    } else {
        assert(g.hex(last).center_x + 1 == extent_x(sx, sy));
    }
}

} // verus!
