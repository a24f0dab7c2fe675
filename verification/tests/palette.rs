use bbmicro::palette::{palette, Rgb, PALETTE_SIZE};

fn rgb(r: u8, g: u8, b: u8) -> Rgb {
    Rgb { r, g, b }
}

#[test]
fn palette_has_the_sixteen_fixed_colours() {
    let expected = [
        rgb(0, 0, 0),
        rgb(29, 43, 83),
        rgb(126, 37, 83),
        rgb(0, 135, 81),
        rgb(117, 82, 54),
        rgb(95, 87, 79),
        rgb(194, 195, 199),
        rgb(255, 241, 232),
        rgb(255, 0, 77),
        rgb(255, 163, 0),
        rgb(255, 236, 39),
        rgb(0, 228, 54),
        rgb(41, 173, 255),
        rgb(131, 118, 156),
        rgb(255, 119, 168),
        rgb(255, 204, 170),
    ];
    assert_eq!(PALETTE_SIZE, 16);
    for (i, want) in expected.iter().enumerate() {
        assert_eq!(palette(i as u8), *want, "index {}", i);
    }
}

#[test]
fn palette_index_zero_is_black() {
    assert_eq!(palette(0), rgb(0, 0, 0));
}

#[test]
fn palette_last_index_is_peach() {
    assert_eq!(palette(15), rgb(255, 204, 170));
}

#[test]
fn palette_outside_the_table_is_black() {
    for i in 16..=255u8 {
        assert_eq!(palette(i), rgb(0, 0, 0), "index {}", i);
    }
}
