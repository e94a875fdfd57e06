use wasmuri_text::font::find_details;
use wasmuri_text::{FontDetails, FontID};

#[test]
fn from_str_keeps_both_parts() {
    let details = FontDetails::from_str("bold", "Arial");
    assert_eq!(details.get_before_size(), "bold");
    assert_eq!(details.get_after_size(), "Arial");
}

#[test]
fn from_string_keeps_both_parts() {
    let details = FontDetails::from_string("italic".to_string(), "serif".to_string());
    assert_eq!(details.get_before_size(), "italic");
    assert_eq!(details.get_after_size(), "serif");
}

#[test]
fn details_compare_by_value() {
    let a = FontDetails::from_str("bold", "Arial");
    let b = FontDetails::from_string("bold".to_string(), "Arial".to_string());
    let c = FontDetails::from_str("", "Arial");
    assert!(a == b);
    assert!(a != c);
}

#[test]
fn find_details_returns_first_match() {
    let list = vec![
        FontDetails::from_str("", "Arial"),
        FontDetails::from_str("bold", "Arial"),
        FontDetails::from_str("bold", "Arial"),
    ];
    assert_eq!(find_details(&list, &FontDetails::from_str("bold", "Arial")), Some(1));
    assert_eq!(find_details(&list, &FontDetails::from_str("", "Arial")), Some(0));
    assert_eq!(find_details(&list, &FontDetails::from_str("bold", "serif")), None);
    assert_eq!(find_details(&Vec::new(), &FontDetails::from_str("bold", "serif")), None);
}

#[test]
fn font_id_keeps_value() {
    assert_eq!(FontID::new(7).value, 7);
    assert!(FontID::new(2) == FontID::new(2));
    assert!(FontID::new(2) != FontID::new(3));
}

#[test]
fn font_string_places_size_between_parts() {
    assert_eq!(FontDetails::from_str("bold", "Arial").font_string(40), "bold 40px Arial");
    assert_eq!(FontDetails::from_str("", "serif").font_string(250), " 250px serif");
    assert_eq!(FontDetails::from_str("a", "b").font_string(0), "a 0px b");
    assert_eq!(FontDetails::from_str("x", "y").font_string(1009), "x 1009px y");
    assert_eq!(
        FontDetails::from_str("", "").font_string(u32::MAX),
        " 4294967295px "
    );
}
