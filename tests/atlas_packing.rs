use wasmuri_text::atlas::{grid_columns, grid_rows, line_margin};
use wasmuri_text::{AtlasError, FontID, GlyphAtlas, GlyphMetric, Ratio, DEFAULT_CHARS};

fn metric(character: char, width: u32, height: u32) -> GlyphMetric {
    GlyphMetric { character, width, height }
}

fn ratio(numerator: u64, denominator: u64) -> Ratio {
    Ratio { numerator, denominator }
}

fn small_atlas() -> GlyphAtlas {
    let metrics = vec![metric('a', 3, 5), metric('b', 4, 6), metric('c', 2, 4)];
    GlyphAtlas::build(FontID::new(0), &metrics, 1).unwrap()
}

#[test]
fn grid_columns_is_ceiling_of_square_root() {
    assert_eq!(grid_columns(0), 0);
    assert_eq!(grid_columns(1), 1);
    assert_eq!(grid_columns(2), 2);
    assert_eq!(grid_columns(4), 2);
    assert_eq!(grid_columns(5), 3);
    assert_eq!(grid_columns(99), 10);
    assert_eq!(grid_columns(100), 10);
    assert_eq!(grid_columns(101), 11);
}

#[test]
fn grid_rows_is_ceiling_of_quotient() {
    assert_eq!(grid_rows(100, 10), 10);
    assert_eq!(grid_rows(101, 11), 10);
    assert_eq!(grid_rows(3, 2), 2);
    assert_eq!(grid_rows(0, 3), 0);
}

#[test]
fn hundred_characters_make_ten_by_ten_grid() {
    let metrics: Vec<GlyphMetric> =
        (0..100u32).map(|i| metric(char::from_u32(0x41 + i).unwrap(), 10, 20)).collect();
    let atlas = GlyphAtlas::build(FontID::new(0), &metrics, 0).unwrap();
    assert_eq!(atlas.columns(), 10);
    assert_eq!(atlas.rows(), 10);
    assert_eq!(atlas.width(), 100);
    assert_eq!(atlas.height(), 200);
}

#[test]
fn line_margin_rounds_twice_the_stroke_up() {
    assert_eq!(line_margin(1, 50, 250), Some(10));
    assert_eq!(line_margin(3, 100, 100), Some(6));
    assert_eq!(line_margin(1, 3, 1), Some(1));
    assert_eq!(line_margin(0, 50, 250), Some(0));
    assert_eq!(line_margin(1, 0, 250), None);
    assert_eq!(line_margin(u32::MAX, 1, u32::MAX), None);
}

#[test]
fn cells_fill_rows_left_to_right() {
    let atlas = small_atlas();
    assert_eq!(atlas.columns(), 2);
    assert_eq!(atlas.rows(), 2);
    assert_eq!(atlas.width(), 11);
    assert_eq!(atlas.height(), 12);
    assert_eq!(atlas.max_glyph_height(), 6);
    let cells = atlas.cells();
    assert_eq!(cells.len(), 3);
    assert_eq!((cells[0].character, cells[0].draw_x, cells[0].baseline_y), ('a', 0, 4));
    assert_eq!((cells[1].character, cells[1].draw_x, cells[1].baseline_y), ('b', 5, 4));
    assert_eq!((cells[2].character, cells[2].draw_x, cells[2].baseline_y), ('c', 0, 10));
}

#[test]
fn glyph_rects_have_exact_texture_coordinates() {
    let atlas = small_atlas();
    let a = atlas.get_character('a').unwrap();
    assert_eq!(a.get_left_u(), ratio(0, 12));
    assert_eq!(a.get_right_u(), ratio(4, 12));
    assert_eq!(a.get_top_v(), ratio(0, 13));
    assert_eq!(a.get_bottom_v(), ratio(5, 13));
    assert_eq!(a.get_width(), 5);
    let b = atlas.get_character('b').unwrap();
    assert_eq!(b.get_left_u(), ratio(5, 12));
    assert_eq!(b.get_right_u(), ratio(10, 12));
    assert_eq!(b.get_width(), 6);
    let c = atlas.get_character('c').unwrap();
    assert_eq!(c.get_left_u(), ratio(0, 12));
    assert_eq!(c.get_right_u(), ratio(3, 12));
    assert_eq!(c.get_top_v(), ratio(6, 13));
    assert_eq!(c.get_bottom_v(), ratio(11, 13));
    assert_eq!(c.get_width(), 4);
    assert!(atlas.get_character('d').is_none());
}

#[test]
fn every_character_has_one_normalized_rect() {
    let metrics: Vec<GlyphMetric> = DEFAULT_CHARS
        .chars()
        .enumerate()
        .map(|(i, c)| metric(c, 5 + (i as u32 % 7), 20 + (i as u32 % 3)))
        .collect();
    let atlas = GlyphAtlas::build(FontID::new(1), &metrics, 3).unwrap();
    for c in DEFAULT_CHARS.chars() {
        let rect = atlas.get_character(c).unwrap();
        let (l, r) = (rect.get_left_u(), rect.get_right_u());
        let (t, b) = (rect.get_top_v(), rect.get_bottom_v());
        assert_eq!(l.denominator, r.denominator);
        assert_eq!(t.denominator, b.denominator);
        assert!(l.numerator <= r.numerator && r.numerator <= r.denominator);
        assert!(t.numerator <= b.numerator && b.numerator <= b.denominator);
    }
    assert!(atlas.get_character('\u{4e2d}').is_none());
}

#[test]
fn repeated_character_keeps_its_last_cell() {
    let metrics = vec![metric('x', 3, 5), metric('y', 3, 5), metric('x', 3, 5)];
    let atlas = GlyphAtlas::build(FontID::new(0), &metrics, 0).unwrap();
    assert_eq!(atlas.cells().len(), 3);
    let x = atlas.get_character('x').unwrap();
    assert_eq!(x.get_top_v(), ratio(5, 11));
    assert_eq!(x.get_left_u(), ratio(0, 7));
}

#[test]
fn empty_character_set_is_rejected() {
    let result = GlyphAtlas::build(FontID::new(0), &Vec::new(), 2);
    assert!(matches!(result, Err(AtlasError::NoCharacters)));
}

#[test]
fn zero_height_glyphs_are_rejected() {
    let metrics = vec![metric('a', 3, 0), metric('b', 4, 0)];
    let result = GlyphAtlas::build(FontID::new(0), &metrics, 2);
    assert!(matches!(result, Err(AtlasError::ZeroHeight)));
}

#[test]
fn oversized_atlas_is_rejected() {
    let wide = vec![metric('a', u32::MAX - 10, 4), metric('b', 20, 4)];
    assert!(matches!(GlyphAtlas::build(FontID::new(0), &wide, 0), Err(AtlasError::TooLarge)));
    let tall = vec![metric('a', 1, u32::MAX - 1), metric('b', 1, 4), metric('c', 1, 4)];
    assert!(matches!(GlyphAtlas::build(FontID::new(0), &tall, 0), Err(AtlasError::TooLarge)));
}
