//! The terrain generator's configuration: which generator runs, and with
//! which parameters. Fractional parameters are kept in thousandths.
use vstd::prelude::*;
use vstd::string::StrSliceExecFns;

use crate::error::ConfigError;

verus! {

/// Parameters of the circular generator: land in a disc, ice at the poles.
#[derive(Clone, Copy, Debug, PartialEq, Eq, Structural)]
pub struct Circle {
    /// Width of the land ring, in thousandths of a cell.
    pub ring_size: u32,
    /// How quickly ice thins out towards the middle, in thousandths.
    pub ice_falloff: u32,
    /// Share of land that becomes mountains, in thousandths; at most 1000.
    pub mountain_percentage: u32,
    /// Cells of ocean kept around the land.
    pub ocean_distance: u32,
    /// Scale of the noise that shapes the coast, in thousandths.
    pub noise_scale: u32,
    /// How far the coast may stray from the circle, in thousandths of a cell.
    pub land_jitter: u32,
    /// How strongly mountains cluster together.
    pub mountain_stickiness: u32,
}

/// The island generator. The library sets none of its parameters: it runs
/// with the generator's own defaults and the state's seed.
#[derive(Clone, Copy, Debug, PartialEq, Eq, Structural)]
pub struct Islands {}

/// The inland-sea generator. The library sets none of its parameters: it
/// runs with the generator's own defaults and the state's seed.
#[derive(Clone, Copy, Debug, PartialEq, Eq, Structural)]
pub struct Inland {}

/// The active generator and its parameters.
#[derive(Clone, Copy, Debug, PartialEq, Eq, Structural)]
pub enum Generator {
    Circle(Circle),
    Island(Islands),
    Inland(Inland),
}

/// The generators a user can choose from.
#[derive(Clone, Copy, Debug, PartialEq, Eq, Structural)]
pub enum GeneratorKind {
    Circle,
    Islands,
    Inland,
}

/// The renderer a user can choose from.
#[derive(Clone, Copy, Debug, PartialEq, Eq, Structural)]
pub enum Renderer {
    Ogl,
    OglTextured,
}

/// A new value for one parameter of the circular generator.
#[derive(Clone, Copy, Debug, PartialEq, Eq, Structural)]
pub enum CircleParam {
    RingSize(u32),
    IceFalloff(u32),
    MountainPercentage(u32),
    OceanDistance(u32),
    NoiseScale(u32),
    LandJitter(u32),
    MountainStickiness(u32),
}

/// The circular generator's parameters before anyone changes them.
pub open spec fn default_circle() -> Circle {
    Circle {
        ring_size: 4000,
        ice_falloff: 2500,
        mountain_percentage: 80,
        ocean_distance: 3,
        noise_scale: 35,
        land_jitter: 3000,
        mountain_stickiness: 4,
    }
}

/// The generator of kind `k` with its default parameters.
pub open spec fn default_generator(k: GeneratorKind) -> Generator {
    match k {
        GeneratorKind::Circle => Generator::Circle(default_circle()),
        GeneratorKind::Islands => Generator::Island(Islands {}),
        GeneratorKind::Inland => Generator::Inland(Inland {}),
    }
}

/// Whether `p` lies in its allowed range.
pub open spec fn circle_param_valid(p: CircleParam) -> bool {
    match p {
        CircleParam::MountainPercentage(v) => v <= 1000,
        _ => true,
    }
}

/// `c` with the parameter that `p` names set to its value.
pub open spec fn circle_with(c: Circle, p: CircleParam) -> Circle {
    match p {
        CircleParam::RingSize(v) => Circle { ring_size: v, ..c },
        CircleParam::IceFalloff(v) => Circle { ice_falloff: v, ..c },
        CircleParam::MountainPercentage(v) => Circle { mountain_percentage: v, ..c },
        CircleParam::OceanDistance(v) => Circle { ocean_distance: v, ..c },
        CircleParam::NoiseScale(v) => Circle { noise_scale: v, ..c },
        CircleParam::LandJitter(v) => Circle { land_jitter: v, ..c },
        CircleParam::MountainStickiness(v) => Circle { mountain_stickiness: v, ..c },
    }
}

impl Circle {
    pub fn new() -> (c: Circle)
        ensures
            c == default_circle(),
    {
        Circle {
            ring_size: 4000,
            ice_falloff: 2500,
            mountain_percentage: 80,
            ocean_distance: 3,
            noise_scale: 35,
            land_jitter: 3000,
            mountain_stickiness: 4,
        }
    }

    /// Sets one parameter; an out-of-range value is refused and nothing
    /// changes.
    pub fn set_param(&mut self, p: CircleParam) -> (r: Result<(), ConfigError>)
        ensures
            r is Ok <==> circle_param_valid(p),
            r is Err ==> r == Err::<(), ConfigError>(ConfigError::ParameterOutOfRange)
                && *final(self) == *old(self),
            r is Ok ==> *final(self) == circle_with(*old(self), p),
    {
        match p {
            CircleParam::RingSize(v) => self.ring_size = v,
            CircleParam::IceFalloff(v) => self.ice_falloff = v,
            CircleParam::MountainPercentage(v) => {
                if v > 1000 {
                    return Err(ConfigError::ParameterOutOfRange);
                }
                self.mountain_percentage = v;
            },
            CircleParam::OceanDistance(v) => self.ocean_distance = v,
            CircleParam::NoiseScale(v) => self.noise_scale = v,
            CircleParam::LandJitter(v) => self.land_jitter = v,
            CircleParam::MountainStickiness(v) => self.mountain_stickiness = v,
        }
        Ok(())
    }
}

impl Generator {
    /// The generator of the given kind with its default parameters.
    pub fn with_defaults(k: GeneratorKind) -> (g: Generator)
        ensures
            g == default_generator(k),
    {
        match k {
            GeneratorKind::Circle => Generator::Circle(Circle::new()),
            GeneratorKind::Islands => Generator::Island(Islands {}),
            GeneratorKind::Inland => Generator::Inland(Inland {}),
        }
    }

    pub open spec fn kind_of(self) -> GeneratorKind {
        match self {
            Generator::Circle(_) => GeneratorKind::Circle,
            Generator::Island(_) => GeneratorKind::Islands,
            Generator::Inland(_) => GeneratorKind::Inland,
        }
    }

    /// Which generator this is.
    pub fn kind(&self) -> (k: GeneratorKind)
        ensures
            k == self.kind_of(),
    {
        match self {
            Generator::Circle(_) => GeneratorKind::Circle,
            Generator::Island(_) => GeneratorKind::Islands,
            Generator::Inland(_) => GeneratorKind::Inland,
        }
    }
}

/// Whether two strings hold the same characters.
pub fn same_text(a: &str, b: &str) -> (r: bool)
    ensures
        r == (a@ == b@),
{
    let n = a.unicode_len();
    if n != b.unicode_len() {
        return false;
    }
    let mut i: usize = 0;
    while i < n
        invariant
            n == a@.len(),
            n == b@.len(),
            i <= n,
            a@.subrange(0, i as int) == b@.subrange(0, i as int),
        decreases n - i,
    {
        if a.get_char(i) != b.get_char(i) {
            assert(a@[i as int] != b@[i as int]);
            return false;
        }
        i += 1;
        assert(a@.subrange(0, i as int) =~= b@.subrange(0, i as int)) by {
            assert(a@.subrange(0, i - 1) == b@.subrange(0, i - 1));
            assert forall|k: int| 0 <= k < i implies a@[k] == b@[k] by {
                if k < i - 1 {
                    assert(a@.subrange(0, i - 1)[k] == b@.subrange(0, i - 1)[k]);
                }
            }
        }
    }
    assert(a@ =~= a@.subrange(0, n as int));
    assert(b@ =~= b@.subrange(0, n as int));
    true
}

/// The generator that the settings menu lists under `name`.
pub open spec fn kind_named(name: Seq<char>) -> Option<GeneratorKind> {
    if name == "Circular"@ {
        Some(GeneratorKind::Circle)
    } else if name == "Islands"@ {
        Some(GeneratorKind::Islands)
    } else if name == "Inland"@ {
        Some(GeneratorKind::Inland)
    } else {
        None
    }
}

/// The renderer that the settings menu lists under `name`.
pub open spec fn renderer_named(name: Seq<char>) -> Option<Renderer> {
    if name == "OpenGL"@ {
        Some(Renderer::Ogl)
    } else if name == "OpenGL Textured"@ {
        Some(Renderer::OglTextured)
    } else {
        None
    }
}

impl GeneratorKind {
    /// Reads a generator's menu name; `None` for a name the menu does not list.
    pub fn from_name(name: &str) -> (r: Option<GeneratorKind>)
        ensures
            r == kind_named(name@),
    {
        if same_text(name, "Circular") {
            Some(GeneratorKind::Circle)
        } else if same_text(name, "Islands") {
            Some(GeneratorKind::Islands)
        } else if same_text(name, "Inland") {
            Some(GeneratorKind::Inland)
        } else {
            None
        }
    }
}

impl Renderer {
    /// Reads a renderer's menu name; `None` for a name the menu does not list.
    pub fn from_name(name: &str) -> (r: Option<Renderer>)
        ensures
            r == renderer_named(name@),
    {
        if same_text(name, "OpenGL") {
            Some(Renderer::Ogl)
        } else if same_text(name, "OpenGL Textured") {
            Some(Renderer::OglTextured)
        } else {
            None
        }
    }
}

} // verus!
