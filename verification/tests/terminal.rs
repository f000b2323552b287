use flower_genetics::terminal::{AnsiColor, AnsiEffect, TextBlueprint};

#[test]
fn rgb_cube_codes() {
    let c = AnsiColor::from_rgb_cube(1, 2, 3).unwrap();
    let bp = TextBlueprint::new().with_text_color(c);
    assert_eq!(bp.get_ansi(), "\x1B[38;5;67m"); // 16 + 36 + 12 + 3
    let max = AnsiColor::from_rgb_cube(5, 5, 5).unwrap();
    assert_eq!(
        TextBlueprint::new().with_text_color(max).get_ansi(),
        "\x1B[38;5;231m"
    );
    assert!(AnsiColor::from_rgb_cube(6, 0, 0).is_none());
    assert!(AnsiColor::from_rgb_cube(0, 6, 0).is_none());
    assert!(AnsiColor::from_rgb_cube(0, 0, 6).is_none());
}

#[test]
fn gray_ramp_codes() {
    let g = AnsiColor::from_gray_value(0).unwrap();
    assert_eq!(
        TextBlueprint::new().with_text_color(g).get_ansi(),
        "\x1B[38;5;232m"
    );
    let g23 = AnsiColor::from_gray_value(23).unwrap();
    assert_eq!(
        TextBlueprint::new().with_text_color(g23).get_ansi(),
        "\x1B[38;5;255m"
    );
    assert!(AnsiColor::from_gray_value(24).is_none());
}

#[test]
fn empty_blueprint_ansi() {
    assert_eq!(TextBlueprint::new().get_ansi(), "\x1B[m");
}

#[test]
fn text_color_ansi() {
    let bp = TextBlueprint::new().with_text_color(AnsiColor::from_code(160));
    assert_eq!(bp.get_ansi(), "\x1B[38;5;160m");
}

#[test]
fn background_color_ansi() {
    let bp = TextBlueprint::new().with_background_color(AnsiColor::from_code(236));
    assert_eq!(bp.get_ansi(), "\x1B[48;5;236m");
}

#[test]
fn full_blueprint_ansi() {
    let bp = TextBlueprint::new()
        .with_text_color(AnsiColor::from_code(7))
        .with_background_color(AnsiColor::from_code(0))
        .with_effect(AnsiEffect::Bold)
        .with_effect(AnsiEffect::DoubleUnderline);
    assert_eq!(bp.get_ansi(), "\x1B[38;5;7;48;5;0;1;21m");
}

#[test]
fn effects_only_ansi() {
    let bp = TextBlueprint::new()
        .with_effects(&vec![AnsiEffect::Italics, AnsiEffect::Strikethrough]);
    assert_eq!(bp.get_ansi(), "\x1B[3;9m");
    let one = TextBlueprint::new().with_effect(AnsiEffect::Underline);
    assert_eq!(one.get_ansi(), "\x1B[4m");
}

#[test]
fn reset_sequence() {
    assert_eq!(TextBlueprint::reset(), "\x1B[0m");
}

#[test]
fn apply_wraps_text() {
    let bp = TextBlueprint::new().with_text_color(AnsiColor::from_code(27));
    assert_eq!(bp.apply("hi"), "\x1B[38;5;27mhi\x1B[0m");
    assert_eq!(TextBlueprint::new().apply(""), "\x1B[m\x1B[0m");
}
