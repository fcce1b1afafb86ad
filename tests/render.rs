use reaction_diffusion::render::{draw_pattern, symbol_for_level, PALETTE_LEN};

fn level(concentration: f32) -> i64 {
    (9.0 * (concentration / 0.4)).round() as i64
}

#[test]
fn each_level_has_its_symbol() {
    let expected = [' ', '.', ':', ';', '=', '+', 'x', 'X', '%', '$'];
    assert_eq!(expected.len(), PALETTE_LEN);
    for (i, &c) in expected.iter().enumerate() {
        assert_eq!(symbol_for_level(i as i64), c);
    }
}

#[test]
fn levels_out_of_range_saturate() {
    assert_eq!(symbol_for_level(-1), ' ');
    assert_eq!(symbol_for_level(i64::MIN), ' ');
    assert_eq!(symbol_for_level(10), '$');
    assert_eq!(symbol_for_level(i64::MAX), '$');
}

#[test]
fn quantizer_clamps_concentrations() {
    assert_eq!(symbol_for_level(level(-1.0)), ' ');
    assert_eq!(symbol_for_level(level(1000.0)), '$');
    assert_eq!(level(0.2), 5);
    assert_eq!(symbol_for_level(level(0.2)), '+');
    assert_eq!(symbol_for_level(level(0.0)), ' ');
}

#[test]
fn pattern_of_two_by_two() {
    let out = draw_pattern(2, 2, &vec![0, 1, 2, 100]);
    assert_eq!(out, "__\n .\n:$\n__\n");
}

#[test]
fn pattern_is_row_major_on_wide_grid() {
    let out = draw_pattern(3, 2, &vec![9, 8, 7, 6, 5, -3]);
    assert_eq!(out, "___\n$%X\nx+ \n___\n");
}

#[test]
fn pattern_with_no_rows_is_two_borders() {
    let out = draw_pattern(4, 0, &vec![]);
    assert_eq!(out, "____\n____\n");
}
