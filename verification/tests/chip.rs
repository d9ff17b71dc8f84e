use stickyflow::chip::{
    chip_css, chip_settings_from_stored, chip_settings_to_stored, chip_width,
    chip_window_width_limits, clamp_i32, clamp_opacity, compact_chip_title, expanded_size_floor,
    normalize_chip_settings, ChipSettings, StoredChipSettings,
};
use stickyflow::text::{is_white_space, trim_text};

fn settings(auto_width: bool, fixed_width: i32, height: i32, min_width: i32, max_width: i32, font_size: i32) -> ChipSettings {
    ChipSettings { auto_width, fixed_width, height, min_width, max_width, font_size }
}

fn stored(values: [Option<&str>; 6]) -> StoredChipSettings {
    let [auto_width, fixed_width, height, min_width, max_width, font_size] =
        values.map(|value| value.map(|text| text.to_string()));
    StoredChipSettings { auto_width, fixed_width, height, min_width, max_width, font_size }
}

#[test]
fn default_chip_settings() {
    assert_eq!(ChipSettings::default(), settings(true, 90, 26, 60, 180, 11));
    assert_eq!(normalize_chip_settings(ChipSettings::default()), ChipSettings::default());
}

#[test]
fn normalization_clamps_every_field() {
    assert_eq!(normalize_chip_settings(settings(false, 1000, 5, 10, 2000, 99)), settings(false, 640, 20, 48, 640, 24));
    assert_eq!(normalize_chip_settings(settings(true, -5, 100, 600, 100, 0)), settings(true, 480, 64, 480, 480, 8));
    assert_eq!(normalize_chip_settings(settings(true, 70, 30, 100, 50, 12)), settings(true, 100, 30, 100, 100, 12));
}

#[test]
fn normalization_is_idempotent() {
    for s in [settings(false, 1000, 5, 10, 2000, 99), settings(true, i32::MIN, i32::MAX, i32::MAX, i32::MIN, 0)] {
        let once = normalize_chip_settings(s);
        assert_eq!(normalize_chip_settings(once), once);
    }
}

#[test]
fn clamp_matches_ord_clamp() {
    for (v, lo, hi) in [(5, 1, 10), (-3, 1, 10), (11, 1, 10), (4, 4, 4)] {
        assert_eq!(clamp_i32(v, lo, hi), v.clamp(lo, hi));
    }
}

#[test]
fn stored_settings_read_back() {
    let s = settings(false, 120, 30, 70, 200, 13);
    let written = chip_settings_to_stored(&s);
    assert_eq!(written.auto_width.as_deref(), Some("false"));
    assert_eq!(written.fixed_width.as_deref(), Some("120"));
    assert_eq!(chip_settings_from_stored(&written), s);
}

#[test]
fn stored_settings_out_of_range_read_back_normalized() {
    let s = settings(true, -7, 1000, 0, -20, 30);
    let written = chip_settings_to_stored(&s);
    assert_eq!(written.fixed_width.as_deref(), Some("-7"));
    assert_eq!(chip_settings_from_stored(&written), normalize_chip_settings(s));
}

#[test]
fn missing_or_unreadable_values_fall_back_to_defaults() {
    assert_eq!(chip_settings_from_stored(&stored([None; 6])), ChipSettings::default());
    let odd = stored([Some("TRUE"), Some(" 100"), Some("2147483648"), Some("x"), Some(""), Some("-")]);
    assert_eq!(chip_settings_from_stored(&odd), ChipSettings::default());
}

#[test]
fn signed_values_are_read() {
    let values = stored([Some("false"), Some("+100"), Some("-0"), Some("050"), Some("+0200"), Some("12")]);
    assert_eq!(chip_settings_from_stored(&values), settings(false, 100, 20, 50, 200, 12));
}

#[test]
fn chip_title_is_trimmed_and_shortened() {
    assert_eq!(compact_chip_title("  Shopping list \n"), "Shopping list");
    assert_eq!(compact_chip_title(""), "Untitled");
    assert_eq!(compact_chip_title(" \t\u{3000} "), "Untitled");
    assert_eq!(compact_chip_title("abcdefghijklmnopqrstuv"), "abcdefghijklmnopqrstuv");
    assert_eq!(compact_chip_title("abcdefghijklmnopqrstuvw"), "abcdefghijklmnopqrstuv\u{2026}");
    assert_eq!(compact_chip_title(&"é".repeat(30)), format!("{}\u{2026}", "é".repeat(22)));
}

#[test]
fn white_space_matches_the_standard_library() {
    for code in 0u32..=0x10FFFF {
        if let Some(c) = char::from_u32(code) {
            assert_eq!(is_white_space(c), c.is_whitespace(), "U+{code:04X}");
        }
    }
}

#[test]
fn trimming_matches_the_standard_library() {
    for text in ["", " ", " a ", "\u{2003}x y\u{85}", "a", "\t\nab\r"] {
        assert_eq!(trim_text(text), text.trim());
    }
}

#[test]
fn chip_width_follows_the_settings() {
    let fixed = settings(false, 500, 26, 60, 180, 11);
    assert_eq!(chip_width(&fixed, 10), 180);
    let auto = settings(true, 90, 26, 60, 180, 11);
    assert_eq!(chip_width(&auto, 100), 142);
    assert_eq!(chip_width(&auto, 0), 60);
    assert_eq!(chip_width(&auto, 1000), 180);
    assert_eq!(chip_window_width_limits(&auto, 142), (60, 180));
    assert_eq!(chip_window_width_limits(&fixed, 180), (180, 180));
}

#[test]
fn opacity_and_expanded_size_bounds() {
    assert_eq!(clamp_opacity(10), 40);
    assert_eq!(clamp_opacity(75), 75);
    assert_eq!(clamp_opacity(250), 100);
    assert_eq!(expanded_size_floor(100, 500), (260, 500));
    assert_eq!(expanded_size_floor(300, 10), (300, 180));
}

#[test]
fn chip_style_sheet_uses_the_font_size() {
    let css = chip_css(11);
    assert!(css.starts_with("#stickyflow-chip-root {\n    background-color: #fff1a8;"));
    assert!(css.contains("#stickyflow-chip-drag {\n    color: #756c46;\n    font-size: 11px;"));
    assert!(css.contains("#stickyflow-chip-title {\n    color: #29261e;\n    font-size: 11px;\n    font-weight: 600;"));
    assert!(css.contains("#stickyflow-chip-arrow {\n    color: #756c46;\n    font-size: 12px;"));
}
