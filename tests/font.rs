use voxel_explorer::GLChar;

#[test]
fn letters_map_to_their_glyphs() {
    assert_eq!(GLChar::from_char('a'), GLChar::A);
    assert_eq!(GLChar::from_char('z'), GLChar::Z);
    assert_eq!(GLChar::from_char('.'), GLChar::DOT);
    assert_eq!(GLChar::from_char(':'), GLChar::DOUBLEPOINT);
    assert_eq!(GLChar::from_char(','), GLChar::COMMA);
}

#[test]
fn glyph_cells_in_the_atlas() {
    assert_eq!(GLChar::A.get_index(), (1, 3));
    assert_eq!(GLChar::I.get_index(), (10, 3));
    assert_eq!(GLChar::P.get_index(), (0, 2));
    assert_eq!(GLChar::DOT.get_index(), (14, 5));
    assert_eq!(GLChar::DOUBLEPOINT.get_index(), (10, 4));
    assert_eq!(GLChar::COMMA.get_index(), (12, 5));
}
