use wasmuri_text::{FontID, GlyphAtlas, GlyphMetric, Ratio, TextLayout};

fn metric(character: char, width: u32, height: u32) -> GlyphMetric {
    GlyphMetric { character, width, height }
}

fn ratio(numerator: u64, denominator: u64) -> Ratio {
    Ratio { numerator, denominator }
}

fn quad(left: Ratio, bottom: Ratio, right: Ratio, top: Ratio) -> Vec<Ratio> {
    vec![left, bottom, right, bottom, right, top, right, top, left, top, left, bottom]
}

fn small_atlas() -> GlyphAtlas {
    let metrics = vec![metric('a', 3, 5), metric('b', 4, 6), metric('c', 2, 4)];
    GlyphAtlas::build(FontID::new(4), &metrics, 1).unwrap()
}

fn letters_atlas() -> GlyphAtlas {
    let metrics: Vec<GlyphMetric> = "ABCDEFGH"
        .chars()
        .enumerate()
        .map(|(i, c)| metric(c, 10 + i as u32, 30))
        .collect();
    GlyphAtlas::build(FontID::new(2), &metrics, 2).unwrap()
}

#[test]
fn two_glyphs_give_exact_vertex_data() {
    let atlas = small_atlas();
    let layout = TextLayout::compile_text(&atlas, "ab").unwrap();
    let mut expected = Vec::new();
    expected.extend(quad(ratio(0, 6), ratio(0, 1), ratio(5, 6), ratio(1, 1)));
    expected.extend(quad(ratio(5, 6), ratio(0, 1), ratio(11, 6), ratio(1, 1)));
    expected.extend(quad(ratio(0, 12), ratio(5, 13), ratio(4, 12), ratio(0, 13)));
    expected.extend(quad(ratio(5, 12), ratio(5, 13), ratio(10, 12), ratio(0, 13)));
    assert_eq!(layout.vertex_data(), &expected);
    assert_eq!(layout.total_width(), ratio(11, 6));
    assert_eq!(layout.glyph_count(), 2);
    assert_eq!(layout.vertex_count(), 12);
    assert_eq!(layout.texture_coords_start(), 24);
    assert_eq!(layout.get_font(), FontID::new(4));
    assert!(layout.missing().is_empty());
}

#[test]
fn known_text_has_twelve_floats_per_quad_and_summed_width() {
    let atlas = letters_atlas();
    let text = "HEADBADGE";
    let layout = TextLayout::compile_text(&atlas, text).unwrap();
    let n = text.chars().count();
    assert_eq!(layout.vertex_data().len(), 24 * n);
    assert_eq!(layout.texture_coords_start(), 12 * n);
    let sum: u64 = text.chars().map(|c| atlas.get_character(c).unwrap().get_width() as u64).sum();
    assert_eq!(layout.total_width(), ratio(sum, 30));
}

#[test]
fn unknown_character_is_skipped_and_reported() {
    let atlas = letters_atlas();
    let layout = TextLayout::compile_text(&atlas, "A€B").unwrap();
    assert_eq!(layout.glyph_count(), 2);
    assert_eq!(layout.vertex_data().len(), 48);
    assert_eq!(layout.missing(), &vec!['€']);
    let a = atlas.get_character('A').unwrap().get_width() as u64;
    let b = atlas.get_character('B').unwrap().get_width() as u64;
    assert_eq!(layout.total_width(), ratio(a + b, 30));
    assert_eq!(layout.vertex_data()[2], ratio(a, 30));
    assert_eq!(layout.vertex_data()[12], ratio(a, 30));
}

#[test]
fn empty_text_has_no_geometry() {
    let atlas = letters_atlas();
    let layout = TextLayout::compile_text(&atlas, "").unwrap();
    assert_eq!(layout.glyph_count(), 0);
    assert!(layout.vertex_data().is_empty());
    assert_eq!(layout.total_width(), ratio(0, 30));
}

#[test]
fn widest_x_coordinate_is_total_width() {
    let atlas = letters_atlas();
    let layout = TextLayout::compile_text(&atlas, "GAGE?").unwrap();
    let data = layout.vertex_data();
    let width = layout.total_width();
    let start = layout.texture_coords_start();
    let xs: Vec<Ratio> = (0..start).step_by(2).map(|i| data[i]).collect();
    assert!(xs.iter().all(|x| x.denominator == width.denominator));
    assert_eq!(xs.iter().map(|x| x.numerator).max(), Some(width.numerator));
    assert_eq!(xs.iter().map(|x| x.numerator).min(), Some(0));
    assert_eq!(layout.missing(), &vec!['?']);
}
