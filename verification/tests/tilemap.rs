use bbmicro::tilemap::{TileMap, MAP_CELLS, MAP_SIZE};

#[test]
fn map_dimensions() {
    assert_eq!(MAP_SIZE, 256);
    assert_eq!(MAP_CELLS, 256 * 256);
}

#[test]
fn fresh_map_is_all_zero() {
    let map = TileMap::new();
    for y in 0..256u32 {
        for x in 0..256u32 {
            assert_eq!(map.get(x, y, 0), 0);
        }
    }
}

#[test]
fn get_returns_what_set_wrote_for_every_tile_value() {
    let mut map = TileMap::new();
    for v in 0..=255u8 {
        map.set(17, 200, 0, v);
        assert_eq!(map.get(17, 200, 0), v);
    }
}

#[test]
fn set_and_get_at_the_four_corners() {
    let mut map = TileMap::new();
    map.set(0, 0, 0, 1);
    map.set(255, 0, 0, 2);
    map.set(0, 255, 0, 3);
    map.set(255, 255, 0, 4);
    assert_eq!(map.get(0, 0, 0), 1);
    assert_eq!(map.get(255, 0, 0), 2);
    assert_eq!(map.get(0, 255, 0), 3);
    assert_eq!(map.get(255, 255, 0), 4);
}

#[test]
fn set_changes_one_cell_only() {
    let mut map = TileMap::new();
    map.set(3, 4, 0, 99);
    for y in 0..256u32 {
        for x in 0..256u32 {
            let want = if x == 3 && y == 4 { 99 } else { 0 };
            assert_eq!(map.get(x, y, 0), want, "cell ({}, {})", x, y);
        }
    }
}

#[test]
fn columns_and_rows_are_told_apart() {
    let mut map = TileMap::new();
    map.set(1, 0, 0, 10);
    map.set(0, 1, 0, 20);
    assert_eq!(map.get(1, 0, 0), 10);
    assert_eq!(map.get(0, 1, 0), 20);
}

#[test]
fn every_cell_holds_its_own_tile() {
    let mut map = TileMap::new();
    for y in 0..256u32 {
        for x in 0..256u32 {
            map.set(x, y, 0, ((x * 7 + y * 13) % 251) as u8);
        }
    }
    for y in 0..256u32 {
        for x in 0..256u32 {
            assert_eq!(map.get(x, y, 0), ((x * 7 + y * 13) % 251) as u8);
        }
    }
}

#[test]
fn layers_share_one_grid() {
    let mut map = TileMap::new();
    map.set(9, 9, 0, 42);
    assert_eq!(map.get(9, 9, 1), 42);
    assert_eq!(map.get(9, 9, 255), 42);
    map.set(9, 9, 7, 43);
    assert_eq!(map.get(9, 9, 0), 43);
}

#[test]
fn a_later_write_replaces_an_earlier_one() {
    let mut map = TileMap::new();
    map.set(100, 100, 0, 5);
    map.set(100, 100, 0, 0);
    assert_eq!(map.get(100, 100, 0), 0);
}
