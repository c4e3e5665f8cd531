use escpos_printer::{Align, CutMode, Density, Font, Justification, PrintSpeed, UnderlineMode};

#[test]
fn cut_mode_bytes() {
    assert_eq!(CutMode::Full.as_byte(), 0x00);
    assert_eq!(CutMode::Partial.as_byte(), 0x01);
}

#[test]
fn underline_mode_bytes() {
    assert_eq!(UnderlineMode::Off.as_byte(), 0x00);
    assert_eq!(UnderlineMode::Single.as_byte(), 0x01);
    assert_eq!(UnderlineMode::Double.as_byte(), 0x02);
}

#[test]
fn align_bytes() {
    assert_eq!(Align::Left.as_byte(), 0x00);
    assert_eq!(Align::Center.as_byte(), 0x01);
    assert_eq!(Align::Right.as_byte(), 0x02);
}

#[test]
fn font_bytes() {
    assert_eq!(Font::FontA.as_byte(), 0x00);
    assert_eq!(Font::FontB.as_byte(), 0x01);
}

#[test]
fn justification_bytes() {
    assert_eq!(Justification::Left.as_byte(), 0x00);
    assert_eq!(Justification::Center.as_byte(), 0x01);
    assert_eq!(Justification::Right.as_byte(), 0x02);
}

#[test]
fn density_bytes_are_the_level_numbers() {
    assert_eq!(Density::Level0.as_byte(), 0x00);
    assert_eq!(Density::Level1.as_byte(), 0x01);
    assert_eq!(Density::Level2.as_byte(), 0x02);
    assert_eq!(Density::Level3.as_byte(), 0x03);
    assert_eq!(Density::Level4.as_byte(), 0x04);
    assert_eq!(Density::Level5.as_byte(), 0x05);
    assert_eq!(Density::Level6.as_byte(), 0x06);
    assert_eq!(Density::Level7.as_byte(), 0x07);
    assert_eq!(Density::Level8.as_byte(), 0x08);
}

#[test]
fn print_speed_bytes_count_from_zero() {
    assert_eq!(PrintSpeed::Speed1.as_byte(), 0x00);
    assert_eq!(PrintSpeed::Speed2.as_byte(), 0x01);
    assert_eq!(PrintSpeed::Speed3.as_byte(), 0x02);
    assert_eq!(PrintSpeed::Speed4.as_byte(), 0x03);
}

#[test]
fn as_byte_gives_the_same_byte_every_time() {
    let mode = CutMode::Partial;
    assert_eq!(mode.as_byte(), mode.as_byte());
    let level = Density::Level6;
    let copy = level;
    assert_eq!(level.as_byte(), copy.as_byte());
}

#[test]
fn options_compare_and_print() {
    assert_eq!(Align::Center, Align::Center);
    assert_ne!(Align::Left, Align::Right);
    assert_ne!(UnderlineMode::Single, UnderlineMode::Double);
    assert_eq!(format!("{:?}", Font::FontB), "FontB");
    assert_eq!(format!("{:?}", PrintSpeed::Speed3), "Speed3");
}
