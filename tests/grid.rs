use enigmap_gtk::error::ConfigError;
use enigmap_gtk::grid::{GridMap, Hex};
use enigmap_gtk::instance::{get_instance_data, InstanceData};
use enigmap_gtk::terrain::{ColorMap, HexType, Rgb};

fn terrain_of(m: &GridMap) -> Vec<HexType> {
    (0..m.get_area()).map(|i| m.hex(i).terrain_type).collect()
}

fn cells_of(m: &GridMap) -> Vec<Hex> {
    (0..m.get_area()).map(|i| m.hex(i)).collect()
}

#[test]
fn new_grid_has_one_cell_per_position() {
    let m = GridMap::new(4, 3, HexType::Ocean).unwrap();
    assert_eq!(m.size_x(), 4);
    assert_eq!(m.size_y(), 3);
    assert_eq!(m.get_area(), 12);
    assert!(terrain_of(&m).iter().all(|t| *t == HexType::Ocean));
}

#[test]
fn new_grid_rejects_zero_dimensions() {
    assert_eq!(GridMap::new(0, 3, HexType::Water).unwrap_err(), ConfigError::ZeroSize);
    assert_eq!(GridMap::new(3, 0, HexType::Water).unwrap_err(), ConfigError::ZeroSize);
}

#[test]
fn centres_follow_the_hex_lattice() {
    let m = GridMap::new(3, 2, HexType::Water).unwrap();
    // Row 0: half widths 1, 3, 5; row 1 is shifted by half a cell.
    let expected = [(1, 2), (3, 2), (5, 2), (2, 5), (4, 5), (6, 5)];
    for (i, (cx, cy)) in expected.iter().enumerate() {
        let h = m.hex(i);
        assert_eq!((h.center_x, h.center_y), (*cx, *cy));
    }
}

#[test]
fn extents_bound_the_centres() {
    let m = GridMap::new(100, 75, HexType::Water).unwrap();
    assert_eq!(m.absolute_size_x(), 201);
    assert_eq!(m.absolute_size_y(), 226);
    let one_row = GridMap::new(3, 1, HexType::Water).unwrap();
    assert_eq!(one_row.absolute_size_x(), 6);
    assert_eq!(one_row.absolute_size_y(), 4);
    let cells = cells_of(&m);
    assert_eq!(cells.iter().map(|h| h.center_x + 1).max(), Some(201));
    assert_eq!(cells.iter().map(|h| h.center_y + 2).max(), Some(226));
}

#[test]
fn remap_keeps_overlap_and_fills_the_rest() {
    let mut m = GridMap::new(3, 2, HexType::Water).unwrap();
    m.set_terrain(0, HexType::Mountain);
    m.set_terrain(2, HexType::Forest);
    m.set_terrain(4, HexType::Desert);
    m.remap(2, 3, HexType::Ice).unwrap();
    assert_eq!((m.size_x(), m.size_y()), (2, 3));
    assert_eq!(
        terrain_of(&m),
        vec![
            HexType::Mountain,
            HexType::Water,
            HexType::Water,
            HexType::Desert,
            HexType::Ice,
            HexType::Ice,
        ]
    );
    assert_eq!((m.hex(5).center_x, m.hex(5).center_y), (3, 8));
}

#[test]
fn remap_twice_is_idempotent() {
    let mut m = GridMap::new(5, 4, HexType::Water).unwrap();
    for i in 0..20 {
        if i % 3 == 0 {
            m.set_terrain(i, HexType::Grassland);
        }
    }
    m.remap(7, 2, HexType::Swamp).unwrap();
    let once = cells_of(&m);
    m.remap(7, 2, HexType::Swamp).unwrap();
    assert_eq!(cells_of(&m), once);
}

#[test]
fn remap_to_same_size_changes_nothing() {
    let mut m = GridMap::new(3, 3, HexType::Water).unwrap();
    m.set_terrain(4, HexType::Jungle);
    let before = cells_of(&m);
    m.remap(3, 3, HexType::Ice).unwrap();
    assert_eq!(cells_of(&m), before);
}

#[test]
fn remap_with_zero_width_leaves_grid() {
    let mut m = GridMap::new(100, 75, HexType::Water).unwrap();
    m.set_terrain(10, HexType::Tundra);
    let before = cells_of(&m);
    assert_eq!(m.remap(0, 75, HexType::Water), Err(ConfigError::ZeroSize));
    assert_eq!(m.remap(100, 0, HexType::Water), Err(ConfigError::ZeroSize));
    assert_eq!((m.size_x(), m.size_y()), (100, 75));
    assert_eq!(cells_of(&m), before);
}

#[test]
fn duplicate_is_an_equal_copy() {
    let mut m = GridMap::new(4, 2, HexType::Water).unwrap();
    m.set_terrain(3, HexType::Field);
    let mut d = m.duplicate();
    assert_eq!(cells_of(&d), cells_of(&m));
    d.set_terrain(3, HexType::Ice);
    assert_eq!(m.hex(3).terrain_type, HexType::Field);
}

#[test]
fn projection_carries_centre_and_colour() {
    let mut m = GridMap::new(2, 2, HexType::Water).unwrap();
    m.set_terrain(3, HexType::Mountain);
    let colors = ColorMap::standard();
    let data = get_instance_data(&m, &colors);
    assert_eq!(data.len(), 4);
    assert_eq!(
        data[0],
        InstanceData { offset_x: 1, offset_y: 2, r: 62, g: 138, b: 214 }
    );
    assert_eq!(
        data[3],
        InstanceData { offset_x: 4, offset_y: 5, r: 120, g: 108, b: 96 }
    );
}

#[test]
fn palette_lookup_gives_each_category_its_colour() {
    let colors = ColorMap::standard();
    assert_eq!(colors.get_color(HexType::Ice), Rgb { r: 236, g: 244, b: 250 });
    assert_eq!(colors.get_color(HexType::Ocean), Rgb { r: 28, g: 84, b: 160 });
    let mut custom = colors;
    custom.swamp = Rgb { r: 1, g: 2, b: 3 };
    assert_eq!(custom.get_color(HexType::Swamp), Rgb { r: 1, g: 2, b: 3 });
}
