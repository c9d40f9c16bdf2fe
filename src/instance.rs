//! The per-cell records handed to the renderer.
use vstd::prelude::*;

use crate::grid::{GridMap, Hex};
use crate::terrain::{ColorMap, Rgb};

verus! {

/// One renderer record: the cell's centre (half widths, quarter heights)
/// and its colour. The renderer receives it as five packed 32-bit floats,
/// `[offset_x, offset_y, r, g, b]`.
#[derive(Clone, Copy, Debug, PartialEq, Eq, Structural)]
pub struct InstanceData {
    pub offset_x: u64,
    pub offset_y: u64,
    pub r: u8,
    pub g: u8,
    pub b: u8,
}

/// The record of cell `h` under `colors`.
pub open spec fn project(h: Hex, colors: ColorMap) -> InstanceData {
    let c: Rgb = colors.color_of(h.terrain_type);
    InstanceData { offset_x: h.center_x, offset_y: h.center_y, r: c.r, g: c.g, b: c.b }
}

/// The records of a whole grid, in the order of its cells.
pub open spec fn projection(cells: Seq<Hex>, colors: ColorMap) -> Seq<InstanceData> {
    cells.map_values(|h: Hex| project(h, colors))
}

/// Projects a grid to renderer records: record `i` carries the centre of
/// cell `i` and the colour of its terrain. There is one record per cell.
pub fn get_instance_data(map: &GridMap, colors: &ColorMap) -> (r: Vec<InstanceData>)
    requires
        map.wf(),
    ensures
        r@ == projection(map@.cells(), *colors),
        r@.len() == map@.size_x * map@.size_y,
{
    let size = map.get_area();
    let mut instances: Vec<InstanceData> = Vec::with_capacity(size);
    let mut i: usize = 0;
    while i < size
        invariant
            map.wf(),
            size == map@.terrain.len(),
            i <= size,
            instances@ == projection(map@.cells(), *colors).subrange(0, i as int),
        decreases size - i,
    {
        let h = map.hex(i);
        let color = colors.get_color(h.terrain_type);
        instances.push(
            InstanceData {
                offset_x: h.center_x,
                offset_y: h.center_y,
                r: color.r,
                g: color.g,
                b: color.b,
            },
        );
        i += 1;
        proof {
            assert(instances@ =~= projection(map@.cells(), *colors).subrange(0, i as int));
        }
    }
    proof {
        assert(instances@ =~= projection(map@.cells(), *colors));
    }
    instances
}

} // verus!
