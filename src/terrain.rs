//! Terrain categories and the palette that colours them.
use vstd::prelude::*;

verus! {

/// The category of one hexagonal cell.
#[derive(Clone, Copy, Debug, PartialEq, Eq, Structural)]
pub enum HexType {
    Field,
    Forest,
    Desert,
    Tundra,
    Water,
    Ocean,
    Mountain,
    Impassable,
    Ice,
    Jungle,
    Swamp,
    Grassland,
}

/// An RGB colour, one byte per channel; channel `c` stands for the
/// intensity `c / 255` in `[0, 1]`.
#[derive(Clone, Copy, Debug, PartialEq, Eq, Structural)]
pub struct Rgb {
    pub r: u8,
    pub g: u8,
    pub b: u8,
}

/// The session's palette: one colour per terrain category.
#[derive(Clone, Copy, Debug, PartialEq, Eq, Structural)]
pub struct ColorMap {
    pub field: Rgb,
    pub forest: Rgb,
    pub desert: Rgb,
    pub tundra: Rgb,
    pub water: Rgb,
    pub ocean: Rgb,
    pub mountain: Rgb,
    pub impassable: Rgb,
    pub ice: Rgb,
    pub jungle: Rgb,
    pub swamp: Rgb,
    pub grassland: Rgb,
}

impl ColorMap {
    /// The colour that this palette gives to `t`.
    pub open spec fn color_of(self, t: HexType) -> Rgb {
        match t {
            HexType::Field => self.field,
            HexType::Forest => self.forest,
            HexType::Desert => self.desert,
            HexType::Tundra => self.tundra,
            HexType::Water => self.water,
            HexType::Ocean => self.ocean,
            HexType::Mountain => self.mountain,
            HexType::Impassable => self.impassable,
            HexType::Ice => self.ice,
            HexType::Jungle => self.jungle,
            HexType::Swamp => self.swamp,
            HexType::Grassland => self.grassland,
        }
    }

    /// Looks up the colour of a terrain category.
    pub fn get_color(&self, t: HexType) -> (c: Rgb)
        ensures
            c == self.color_of(t),
    {
        match t {
            HexType::Field => self.field,
            HexType::Forest => self.forest,
            HexType::Desert => self.desert,
            HexType::Tundra => self.tundra,
            HexType::Water => self.water,
            HexType::Ocean => self.ocean,
            HexType::Mountain => self.mountain,
            HexType::Impassable => self.impassable,
            HexType::Ice => self.ice,
            HexType::Jungle => self.jungle,
            HexType::Swamp => self.swamp,
            HexType::Grassland => self.grassland,
        }
    }
}

/// The palette used when a session starts.
pub open spec fn standard_palette() -> ColorMap {
    ColorMap {
        field: Rgb { r: 178, g: 200, b: 96 },
        forest: Rgb { r: 34, g: 110, b: 44 },
        desert: Rgb { r: 232, g: 210, b: 140 },
        tundra: Rgb { r: 168, g: 176, b: 160 },
        water: Rgb { r: 62, g: 138, b: 214 },
        ocean: Rgb { r: 28, g: 84, b: 160 },
        mountain: Rgb { r: 120, g: 108, b: 96 },
        impassable: Rgb { r: 60, g: 54, b: 50 },
        ice: Rgb { r: 236, g: 244, b: 250 },
        jungle: Rgb { r: 20, g: 140, b: 60 },
        swamp: Rgb { r: 86, g: 104, b: 70 },
        grassland: Rgb { r: 120, g: 184, b: 80 },
    }
}

impl ColorMap {
    /// The palette used when a session starts.
    pub fn standard() -> (m: ColorMap)
        ensures
            m == standard_palette(),
    {
        ColorMap {
            field: Rgb { r: 178, g: 200, b: 96 },
            forest: Rgb { r: 34, g: 110, b: 44 },
            desert: Rgb { r: 232, g: 210, b: 140 },
            tundra: Rgb { r: 168, g: 176, b: 160 },
            water: Rgb { r: 62, g: 138, b: 214 },
            ocean: Rgb { r: 28, g: 84, b: 160 },
            mountain: Rgb { r: 120, g: 108, b: 96 },
            impassable: Rgb { r: 60, g: 54, b: 50 },
            ice: Rgb { r: 236, g: 244, b: 250 },
            jungle: Rgb { r: 20, g: 140, b: 60 },
            swamp: Rgb { r: 86, g: 104, b: 70 },
            grassland: Rgb { r: 120, g: 184, b: 80 },
        }
    }
}

} // verus!
