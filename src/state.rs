//! The shared state of a viewing session and its update cycle.
//!
//! Every UI event is one call on `State`, made while the caller holds the
//! state's guard. A call that invalidates terrain hands back a
//! `GenerationJob`: a copy of the grid and what the generator needs. The
//! caller releases the guard, runs the generator on that copy, and takes
//! the guard once more to hand the result to `finish_generation`, which
//! swaps it in whole and projects the renderer records. A view change
//! skips generation and projection and hands back what the renderer needs.
use vstd::prelude::*;

use crate::error::{ConfigError, GenerationError};
use crate::generator::{
    circle_param_valid,
    circle_with,
    default_generator,
    CircleParam,
    Generator,
    GeneratorKind,
    Renderer,
};
use crate::grid::{dims_check, extent_x, extent_y, lemma_remap_same_size, GridMap, GridView};
use crate::instance::{get_instance_data, projection, InstanceData};
use crate::terrain::{standard_palette, ColorMap, HexType};
use crate::viewport::{scale_of, Scale, ViewState};

verus! {

/// The ticket that follows `t`.
pub open spec fn next_ticket(t: u64) -> u64 {
    if t == u64::MAX {
        0
    } else {
        (t + 1) as u64
    }
}

/// What a generator run depends on: the generator with its parameters, the
/// seed, and the grid's dimensions.
pub struct GenerationRequest {
    pub generator: Generator,
    pub seed: u32,
    pub size_x: nat,
    pub size_y: nat,
}

/// The abstract content of the shared state.
pub struct StateView {
    pub grid: GridView,
    pub random_seed: bool,
    /// The seed the user chose.
    pub seed: u32,
    /// The seed the generator runs with.
    pub gen_seed: u32,
    pub gen: Generator,
    pub ren: Renderer,
    pub color_map: ColorMap,
    pub view: ViewState,
    /// The ticket of the latest generation started.
    pub generation: u64,
    /// The ticket of the generation whose result is awaited, if any.
    pub pending: Option<u64>,
}

impl StateView {
    /// With the random seed off, the generator runs with the user's seed.
    pub open spec fn wf(self) -> bool {
        &&& self.grid.wf()
        &&& !self.random_seed ==> self.gen_seed == self.seed
    }

    pub open spec fn request(self) -> GenerationRequest {
        GenerationRequest {
            generator: self.gen,
            seed: self.gen_seed,
            size_x: self.grid.size_x,
            size_y: self.grid.size_y,
        }
    }

    /// The state once a new generation has been started from it.
    pub open spec fn started(self) -> StateView {
        StateView {
            generation: next_ticket(self.generation),
            pending: Some(next_ticket(self.generation)),
            ..self
        }
    }

    /// A generation outcome is a grid of the current dimensions.
    pub open spec fn takes(self, outcome: Option<GridMap>) -> bool {
        &&& outcome is Some
        &&& outcome->Some_0@.size_x == self.grid.size_x
        &&& outcome->Some_0@.size_y == self.grid.size_y
    }

    /// The renderer records of the current grid.
    pub open spec fn instances(self) -> Seq<InstanceData> {
        projection(self.grid.cells(), self.color_map)
    }
}

/// The state a session starts in: a 100 by 75 grid of water, the circular
/// generator with its defaults, user seed 0 with the random seed on, the
/// generator running with `drawn_seed`, zoom 0.
pub open spec fn initial_view(drawn_seed: u32) -> StateView {
    StateView {
        grid: GridView::filled(100, 75, HexType::Water),
        random_seed: true,
        seed: 0,
        gen_seed: drawn_seed,
        gen: default_generator(GeneratorKind::Circle),
        ren: Renderer::Ogl,
        color_map: standard_palette(),
        view: ViewState { zoom_level: 0, window_width: 0, window_height: 0 },
        generation: 0,
        pending: None,
    }
}

/// A generator run to perform outside the guard: `map` is a copy of the
/// grid, never the shared one.
#[derive(Debug)]
pub struct GenerationJob {
    pub ticket: u64,
    pub generator: Generator,
    pub seed: u32,
    pub map: GridMap,
}

impl GenerationJob {
    /// The job is the one that state `s` awaits, for its current grid.
    pub open spec fn issued_for(self, s: StateView) -> bool {
        &&& s.pending == Some(self.ticket)
        &&& self.ticket == s.generation
        &&& self.generator == s.gen
        &&& self.seed == s.gen_seed
        &&& self.map.wf()
        &&& self.map@ == s.grid
    }
}

/// The one authoritative state of a session.
#[derive(Debug)]
pub struct State {
    random_seed: bool,
    seed: u32,
    gen_seed: u32,
    gen: Generator,
    ren: Renderer,
    map: GridMap,
    color_map: ColorMap,
    view: ViewState,
    generation: u64,
    pending: Option<u64>,
}

impl View for State {
    type V = StateView;

    closed spec fn view(&self) -> StateView {
        StateView {
            grid: self.map@,
            random_seed: self.random_seed,
            seed: self.seed,
            gen_seed: self.gen_seed,
            gen: self.gen,
            ren: self.ren,
            color_map: self.color_map,
            view: self.view,
            generation: self.generation,
            pending: self.pending,
        }
    }
}

impl State {
    pub closed spec fn map_ok(&self) -> bool {
        self.map.wf()
    }

    pub open spec fn wf(&self) -> bool {
        self@.wf() && self.map_ok()
    }

    /// The state a session starts in; see `initial_view`. The random seed
    /// is on, and `drawn_seed` is the freshly drawn number the generator
    /// starts from.
    pub fn new(drawn_seed: u32) -> (s: State)
        ensures
            s.wf(),
            s@ == initial_view(drawn_seed),
    {
        let r = GridMap::new(100, 75, HexType::Water);
        assert(r is Ok);
        let map = r.unwrap();
        State {
            random_seed: true,
            seed: 0,
            gen_seed: drawn_seed,
            gen: Generator::with_defaults(GeneratorKind::Circle),
            ren: Renderer::Ogl,
            map,
            color_map: ColorMap::standard(),
            view: ViewState::new(),
            generation: 0,
            pending: None,
        }
    }

    /// Starts a generation of the current grid: the job carries a copy of
    /// it, and the state awaits that job's result.
    pub fn regenerate(&mut self) -> (job: GenerationJob)
        requires
            old(self).wf(),
        ensures
            final(self).wf(),
            final(self)@ == old(self)@.started(),
            job.issued_for(final(self)@),
    {
        let t: u64 = if self.generation == u64::MAX {
            0
        } else {
            self.generation + 1
        };
        self.generation = t;
        self.pending = Some(t);
        GenerationJob { ticket: t, generator: self.gen, seed: self.gen_seed, map: self.map.duplicate() }
    }

    /// Sets the grid's width. The grid is remapped, new cells being water,
    /// and a generation starts. A zero or unindexable width is refused and
    /// nothing changes.
    pub fn set_size_x(&mut self, new_val: u32) -> (r: Result<GenerationJob, ConfigError>)
        requires
            old(self).wf(),
        ensures
            final(self).wf(),
            r is Err <==> dims_check(new_val as int, old(self)@.grid.size_y as int) is Err,
            r is Err ==> r->Err_0 == dims_check(new_val as int, old(self)@.grid.size_y as int)->Err_0
                && final(self)@ == old(self)@,
            r is Ok ==> final(self)@ == (StateView {
                grid: old(self)@.grid.remapped(new_val as nat, old(self)@.grid.size_y, HexType::Water),
                ..old(self)@
            }).started() && r->Ok_0.issued_for(final(self)@),
    {
        let size_y = self.map.size_y();
        if new_val != self.map.size_x() {
            match self.map.remap(new_val, size_y, HexType::Water) {
                Ok(()) => {},
                Err(e) => {
                    return Err(e);
                },
            }
        } else {
            proof {
                lemma_remap_same_size(self.map@, HexType::Water);
            }
        }
        Ok(self.regenerate())
    }

    /// Sets the grid's height; as `set_size_x`.
    pub fn set_size_y(&mut self, new_val: u32) -> (r: Result<GenerationJob, ConfigError>)
        requires
            old(self).wf(),
        ensures
            final(self).wf(),
            r is Err <==> dims_check(old(self)@.grid.size_x as int, new_val as int) is Err,
            r is Err ==> r->Err_0 == dims_check(old(self)@.grid.size_x as int, new_val as int)->Err_0
                && final(self)@ == old(self)@,
            r is Ok ==> final(self)@ == (StateView {
                grid: old(self)@.grid.remapped(old(self)@.grid.size_x, new_val as nat, HexType::Water),
                ..old(self)@
            }).started() && r->Ok_0.issued_for(final(self)@),
    {
        let size_x = self.map.size_x();
        if new_val != self.map.size_y() {
            match self.map.remap(size_x, new_val, HexType::Water) {
                Ok(()) => {},
                Err(e) => {
                    return Err(e);
                },
            }
        } else {
            proof {
                lemma_remap_same_size(self.map@, HexType::Water);
            }
        }
        Ok(self.regenerate())
    }

    /// Sets the seed, for the user and for the generator, and starts a
    /// generation.
    pub fn set_seed(&mut self, seed: u32) -> (job: GenerationJob)
        requires
            old(self).wf(),
        ensures
            final(self).wf(),
            final(self)@ == (StateView { seed, gen_seed: seed, ..old(self)@ }).started(),
            job.issued_for(final(self)@),
    {
        self.seed = seed;
        self.gen_seed = seed;
        self.regenerate()
    }

    /// Switches to the generator of kind `k` with its default parameters
    /// and starts a generation.
    pub fn choose_generator(&mut self, k: GeneratorKind) -> (job: GenerationJob)
        requires
            old(self).wf(),
        ensures
            final(self).wf(),
            final(self)@ == (StateView { gen: default_generator(k), ..old(self)@ }).started(),
            job.issued_for(final(self)@),
            job.generator == default_generator(k),
    {
        self.gen = Generator::with_defaults(k);
        self.regenerate()
    }

    /// Turns the random seed on or off and starts a generation. Turned on,
    /// the generator runs with `drawn_seed`, a freshly drawn number; turned
    /// off, with the user's seed.
    pub fn set_random_seed(&mut self, enabled: bool, drawn_seed: u32) -> (job: GenerationJob)
        requires
            old(self).wf(),
        ensures
            final(self).wf(),
            final(self)@ == (StateView {
                random_seed: enabled,
                gen_seed: if enabled {
                    drawn_seed
                } else {
                    old(self)@.seed
                },
                ..old(self)@
            }).started(),
            job.issued_for(final(self)@),
    {
        self.random_seed = enabled;
        if enabled {
            self.gen_seed = drawn_seed;
        } else {
            self.gen_seed = self.seed;
        }
        self.regenerate()
    }

    /// Sets a parameter of the circular generator and starts a generation.
    /// An out-of-range value is refused and nothing changes; while another
    /// generator is active nothing changes and no generation starts.
    pub fn set_circle_param(&mut self, p: CircleParam) -> (r: Result<Option<GenerationJob>, ConfigError>)
        requires
            old(self).wf(),
        ensures
            final(self).wf(),
            !(old(self)@.gen is Circle) ==> r == Ok::<Option<GenerationJob>, ConfigError>(None)
                && final(self)@ == old(self)@,
            old(self)@.gen is Circle && !circle_param_valid(p) ==> r == Err::<
                Option<GenerationJob>,
                ConfigError,
            >(ConfigError::ParameterOutOfRange) && final(self)@ == old(self)@,
            old(self)@.gen is Circle && circle_param_valid(p) ==> r is Ok && r->Ok_0 is Some
                && final(self)@ == (StateView {
                gen: Generator::Circle(circle_with(old(self)@.gen->Circle_0, p)),
                ..old(self)@
            }).started() && r->Ok_0->Some_0.issued_for(final(self)@),
    {
        match self.gen {
            Generator::Circle(c) => {
                let mut c = c;
                match c.set_param(p) {
                    Ok(()) => {},
                    Err(e) => {
                        return Err(e);
                    },
                }
                self.gen = Generator::Circle(c);
                Ok(Some(self.regenerate()))
            },
            _ => Ok(None),
        }
    }

    /// Chooses the renderer; terrain and view stay.
    pub fn set_renderer(&mut self, ren: Renderer)
        requires
            old(self).wf(),
        ensures
            final(self).wf(),
            final(self)@ == (StateView { ren, ..old(self)@ }),
    {
        self.ren = ren;
    }

    /// One scroll step up; returns the new render scale.
    pub fn zoom_in(&mut self) -> (s: Scale)
        requires
            old(self).wf(),
        ensures
            final(self).wf(),
            final(self)@ == (StateView { view: final(self)@.view, ..old(self)@ }),
            final(self)@.view == (ViewState {
                zoom_level: final(self)@.view.zoom_level,
                ..old(self)@.view
            }),
            final(self)@.view.zoom_level == if old(self)@.view.zoom_level == i32::MAX {
                i32::MAX as int
            } else {
                old(self)@.view.zoom_level + 1
            },
            s == scale_of(final(self)@.view.zoom_level as int),
    {
        self.view.zoom_in()
    }

    /// One scroll step down; returns the new render scale.
    pub fn zoom_out(&mut self) -> (s: Scale)
        requires
            old(self).wf(),
        ensures
            final(self).wf(),
            final(self)@ == (StateView { view: final(self)@.view, ..old(self)@ }),
            final(self)@.view == (ViewState {
                zoom_level: final(self)@.view.zoom_level,
                ..old(self)@.view
            }),
            final(self)@.view.zoom_level == if old(self)@.view.zoom_level == i32::MIN {
                i32::MIN as int
            } else {
                old(self)@.view.zoom_level - 1
            },
            s == scale_of(final(self)@.view.zoom_level as int),
    {
        self.view.zoom_out()
    }

    /// Back to zoom level 0; returns the scale 1.
    pub fn reset_zoom(&mut self) -> (s: Scale)
        requires
            old(self).wf(),
        ensures
            final(self).wf(),
            final(self)@ == (StateView {
                view: ViewState { zoom_level: 0, ..old(self)@.view },
                ..old(self)@
            }),
            s == (Scale::Linear { fifths: 5 }),
    {
        self.view.reset_zoom()
    }

    /// The extent of the grid, in half cell widths and quarter cell heights,
    /// which the renderer's projection needs.
    pub fn world_bounds(&self) -> (r: (u64, u64))
        requires
            self.wf(),
        ensures
            r == (
                extent_x(self@.grid.size_x as int, self@.grid.size_y as int) as u64,
                extent_y(self@.grid.size_y as int) as u64,
            ),
    {
        (self.map.absolute_size_x(), self.map.absolute_size_y())
    }

    /// Records the window's new size and returns the grid's extent, with
    /// which the resize is forwarded to the renderer.
    pub fn window_resized(&mut self, width: i32, height: i32) -> (r: (u64, u64))
        requires
            old(self).wf(),
        ensures
            final(self).wf(),
            final(self)@ == (StateView {
                view: ViewState { window_width: width, window_height: height, ..old(self)@.view },
                ..old(self)@
            }),
            r == (
                extent_x(old(self)@.grid.size_x as int, old(self)@.grid.size_y as int) as u64,
                extent_y(old(self)@.grid.size_y as int) as u64,
            ),
    {
        self.view.resize(width, height);
        self.world_bounds()
    }

    /// The renderer records of the current grid, one per cell.
    pub fn instance_data(&self) -> (r: Vec<InstanceData>)
        requires
            self.wf(),
        ensures
            r@ == self@.instances(),
            r@.len() == self@.grid.size_x * self@.grid.size_y,
    {
        get_instance_data(&self.map, &self.color_map)
    }

    /// Takes the outcome of the generation with ticket `ticket`: `None` if
    /// the generator failed, else the generated copy of the grid.
    ///
    /// A ticket other than the awaited one is stale: nothing changes. For
    /// the awaited ticket the state stops waiting; a grid of the current
    /// dimensions replaces the shared one whole and its renderer records
    /// are returned, one per cell, while a failure or a grid of other
    /// dimensions leaves the previous grid in place.
    pub fn finish_generation(&mut self, ticket: u64, outcome: Option<GridMap>) -> (r: Result<
        Vec<InstanceData>,
        GenerationError,
    >)
        requires
            old(self).wf(),
            outcome is Some ==> outcome->Some_0.wf(),
        ensures
            final(self).wf(),
            old(self)@.pending != Some(ticket) ==> r == Err::<Vec<InstanceData>, GenerationError>(
                GenerationError::Stale,
            ) && final(self)@ == old(self)@,
            old(self)@.pending == Some(ticket) && old(self)@.takes(outcome) ==> r is Ok
                && final(self)@ == (StateView {
                grid: outcome->Some_0@,
                pending: None,
                ..old(self)@
            }) && r->Ok_0@ == final(self)@.instances()
                && r->Ok_0@.len() == final(self)@.grid.size_x * final(self)@.grid.size_y,
            old(self)@.pending == Some(ticket) && !old(self)@.takes(outcome) ==> r == Err::<
                Vec<InstanceData>,
                GenerationError,
            >(GenerationError::GenerationFailure) && final(self)@ == (StateView {
                pending: None,
                ..old(self)@
            }),
    {
        let awaited = match self.pending {
            Some(t) => t == ticket,
            None => false,
        };
        if !awaited {
            return Err(GenerationError::Stale);
        }
        self.pending = None;
        match outcome {
            Some(m) => {
                if m.size_x() == self.map.size_x() && m.size_y() == self.map.size_y() {
                    self.map = m;
                    Ok(self.instance_data())
                } else {
                    Err(GenerationError::GenerationFailure)
                }
            },
            None => Err(GenerationError::GenerationFailure),
        }
    }
    pub fn size_x(&self) -> (r: u32)
        ensures
            r == self@.grid.size_x,
    {
        self.map.size_x()
    }

    pub fn size_y(&self) -> (r: u32)
        ensures
            r == self@.grid.size_y,
    {
        self.map.size_y()
    }

    /// The seed the user chose.
    pub fn seed(&self) -> (r: u32)
        ensures
            r == self@.seed,
    {
        self.seed
    }

    /// The seed the generator runs with.
    pub fn generator_seed(&self) -> (r: u32)
        ensures
            r == self@.gen_seed,
    {
        self.gen_seed
    }

    pub fn random_seed(&self) -> (r: bool)
        ensures
            r == self@.random_seed,
    {
        self.random_seed
    }

    pub fn generator(&self) -> (r: Generator)
        ensures
            r == self@.gen,
    {
        self.gen
    }

    pub fn renderer(&self) -> (r: Renderer)
        ensures
            r == self@.ren,
    {
        self.ren
    }

    pub fn zoom_level(&self) -> (r: i32)
        ensures
            r == self@.view.zoom_level,
    {
        self.view.zoom_level
    }

    pub fn view_state(&self) -> (r: ViewState)
        ensures
            r == self@.view,
    {
        self.view
    }

    pub fn color_map(&self) -> (r: ColorMap)
        ensures
            r == self@.color_map,
    {
        self.color_map
    }

    pub fn map(&self) -> (r: &GridMap)
        requires
            self.wf(),
        ensures
            r.wf(),
            r@ == self@.grid,
    {
        &self.map
    }

    /// The ticket of the generation whose result is awaited, if any.
    pub fn pending_generation(&self) -> (r: Option<u64>)
        ensures
            r == self@.pending,
    {
        self.pending
    }
}

impl Default for State {
    /// The starting state before any number has been drawn: the generator
    /// starts from seed 0.
    fn default() -> (s: State)
        ensures
            s.wf(),
            s@ == initial_view(0),
    {
        State::new(0)
    }
}

/// At every well-formed state there is exactly one renderer record per
/// cell: `size_x * size_y` of them.
pub proof fn lemma_one_record_per_cell(s: StateView)
    requires
        s.wf(),
    ensures
        s.instances().len() == s.grid.size_x * s.grid.size_y,
{
}

/// With the random seed off, what a generation depends on is fixed by the
/// generator with its parameters, the user's seed and the grid's
/// dimensions: two such states ask for the same run.
pub proof fn lemma_generation_deterministic(a: StateView, b: StateView)
    requires
        a.wf(),
        b.wf(),
        !a.random_seed,
        !b.random_seed,
        a.gen == b.gen,
        a.seed == b.seed,
        a.grid.size_x == b.grid.size_x,
        a.grid.size_y == b.grid.size_y,
    ensures
        a.request() == b.request(),
{
}

/// A job issued for a state asks for exactly that state's run, on a copy
/// of its grid.
pub proof fn lemma_job_matches_request(job: GenerationJob, s: StateView)
    requires
        job.issued_for(s),
    ensures
        (GenerationRequest {
            generator: job.generator,
            seed: job.seed,
            size_x: job.map@.size_x,
            size_y: job.map@.size_y,
        }) == s.request(),
{
}

/// The state once a generation has produced `terrain` for the current
/// grid: the grid keeps its dimensions and takes that terrain.
pub open spec fn generated_grid(s: StateView, terrain: Seq<HexType>) -> GridView {
    GridView { terrain, ..s.grid }
}

/// Whenever the generator's output is a function of what it is asked for,
/// two states with the random seed off, the same generator and parameters,
/// the same user seed and the same dimensions end up with identical
/// terrain.
pub proof fn lemma_same_terrain_for_same_settings(
    a: StateView,
    b: StateView,
    generate: spec_fn(GenerationRequest) -> Seq<HexType>,
)
    requires
        a.wf(),
        b.wf(),
        !a.random_seed,
        !b.random_seed,
        a.gen == b.gen,
        a.seed == b.seed,
        a.grid.size_x == b.grid.size_x,
        a.grid.size_y == b.grid.size_y,
    ensures
        generated_grid(a, generate(a.request())) == generated_grid(b, generate(b.request())),
{
    lemma_generation_deterministic(a, b);
}

} // verus!
