use shiftplan::color::{Color, ColorError};

#[test]
fn test_valid_colors() {
    assert!(Color::new("FFD9E6").is_ok());
    assert!(Color::new("#FFD9E6").is_ok());
    assert!(Color::new("ffd9e6").is_ok());
}

#[test]
fn test_invalid_colors() {
    assert!(Color::new("FFF").is_err());
    assert!(Color::new("GGGGGG").is_err());
}

#[test]
fn test_rgb() {
    let color = Color::new("FF8040").unwrap();
    assert_eq!(color.rgb(), (255, 128, 64));
}

#[test]
fn test_light_detection() {
    assert!(Color::new("FFFFFF").unwrap().is_light());
    assert!(!Color::new("000000").unwrap().is_light());
    assert!(!Color::new("FF4444").unwrap().is_light()); // AG color
}

#[test]
fn test_default_colors() {
    assert_eq!(Color::for_shift_code("AG").hex(), "FF4444");
    assert_eq!(Color::for_shift_code("CV").hex(), "96D1CC");
}

#[test]
fn color_normalisation() {
    // The constructor strips the leading # and upper-cases the digits.
    let color = Color::new("#ffd9e6").unwrap();
    assert_eq!(color.hex(), "FFD9E6");
    assert_eq!(color.css(), "#FFD9E6");
    assert_eq!(Color::new_unchecked("#c9c9c9").hex(), "C9C9C9");
}

#[test]
fn color_error_kinds() {
    assert_eq!(Color::new("FFF"), Err(ColorError::InvalidLength(3)));
    assert_eq!(Color::new("#FFD9E6AA"), Err(ColorError::InvalidLength(8)));
    assert_eq!(Color::new("GGGGGG"), Err(ColorError::InvalidCharacters));
}

#[test]
fn text_color_contrast() {
    assert_eq!(Color::new("FFFFFF").unwrap().text_color(), "#000000");
    assert_eq!(Color::new("000000").unwrap().text_color(), "#FFFFFF");
}

#[test]
fn unknown_shift_code_gets_white() {
    assert_eq!(Color::for_shift_code("NOPE").hex(), "FFFFFF");
    assert_eq!(Color::default().hex(), "FFFFFF");
}
