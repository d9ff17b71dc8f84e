use vstd::prelude::*;

use crate::text::{
    i32_text, i32_to_text, lemma_i32_text_round_trip, parse_i32, parsed_i32, same_text, trim_text,
    trimmed,
};

verus! {

/// Default chip height in pixels.
pub const CHIP_DEFAULT_HEIGHT: i32 = 26;

/// Default smallest chip width in pixels.
pub const CHIP_DEFAULT_MIN_WIDTH: i32 = 60;

/// Default largest chip width in pixels.
pub const CHIP_DEFAULT_MAX_WIDTH: i32 = 180;

/// Default chip width in pixels when the width is fixed.
pub const CHIP_DEFAULT_FIXED_WIDTH: i32 = 90;

/// Default chip font size in pixels.
pub const CHIP_DEFAULT_FONT_SIZE: i32 = 11;

/// How compact sticky chips are drawn.
#[derive(Debug, Clone, Copy, PartialEq, Eq, Structural)]
pub struct ChipSettings {
    /// Whether the chip width follows the title.
    pub auto_width: bool,
    /// The chip width when it does not follow the title.
    pub fixed_width: i32,
    /// The chip height.
    pub height: i32,
    /// The smallest chip width.
    pub min_width: i32,
    /// The largest chip width.
    pub max_width: i32,
    /// The font size of the chip's text.
    pub font_size: i32,
}

/// The chip settings used when none are stored.
pub open spec fn default_chip_settings() -> ChipSettings {
    ChipSettings {
        auto_width: true,
        fixed_width: CHIP_DEFAULT_FIXED_WIDTH,
        height: CHIP_DEFAULT_HEIGHT,
        min_width: CHIP_DEFAULT_MIN_WIDTH,
        max_width: CHIP_DEFAULT_MAX_WIDTH,
        font_size: CHIP_DEFAULT_FONT_SIZE,
    }
}

impl Default for ChipSettings {
    fn default() -> (settings: Self)
        ensures
            settings == default_chip_settings(),
    {
        ChipSettings {
            auto_width: true,
            fixed_width: CHIP_DEFAULT_FIXED_WIDTH,
            height: CHIP_DEFAULT_HEIGHT,
            min_width: CHIP_DEFAULT_MIN_WIDTH,
            max_width: CHIP_DEFAULT_MAX_WIDTH,
            font_size: CHIP_DEFAULT_FONT_SIZE,
        }
    }
}

/// `value` brought into `[low, high]`.
pub open spec fn clamped(value: int, low: int, high: int) -> int {
    if value < low {
        low
    } else if value > high {
        high
    } else {
        value
    }
}

/// Brings `value` into `[low, high]`, as `Ord::clamp` does.
pub fn clamp_i32(value: i32, low: i32, high: i32) -> (r: i32)
    requires
        low <= high,
    ensures
        r == clamped(value as int, low as int, high as int),
{
    if value < low {
        low
    } else if value > high {
        high
    } else {
        value
    }
}

/// The settings brought into their allowed ranges: height in `[20, 64]`,
/// smallest width in `[48, 480]`, largest width between the smallest width
/// and 640, fixed width between the two, font size in `[8, 24]`.
pub open spec fn normalized_chip_settings(s: ChipSettings) -> ChipSettings {
    let min_width = clamped(s.min_width as int, 48, 480);
    let max_width = clamped(s.max_width as int, min_width, 640);
    ChipSettings {
        auto_width: s.auto_width,
        fixed_width: clamped(s.fixed_width as int, min_width, max_width) as i32,
        height: clamped(s.height as int, 20, 64) as i32,
        min_width: min_width as i32,
        max_width: max_width as i32,
        font_size: clamped(s.font_size as int, 8, 24) as i32,
    }
}

/// Whether the settings lie in their allowed ranges.
pub open spec fn chip_settings_in_range(s: ChipSettings) -> bool {
    &&& 20 <= s.height <= 64
    &&& 48 <= s.min_width <= 480
    &&& s.min_width <= s.max_width <= 640
    &&& s.min_width <= s.fixed_width <= s.max_width
    &&& 8 <= s.font_size <= 24
}

/// Brings chip settings into their allowed ranges.
pub fn normalize_chip_settings(settings: ChipSettings) -> (r: ChipSettings)
    ensures
        r == normalized_chip_settings(settings),
        chip_settings_in_range(r),
{
    let mut settings = settings;
    settings.height = clamp_i32(settings.height, 20, 64);
    settings.min_width = clamp_i32(settings.min_width, 48, 480);
    settings.max_width = clamp_i32(settings.max_width, settings.min_width, 640);
    settings.fixed_width = clamp_i32(settings.fixed_width, settings.min_width, settings.max_width);
    settings.font_size = clamp_i32(settings.font_size, 8, 24);
    settings
}

/// Settings in range are left as they are, and the defaults are in range.
pub proof fn lemma_normalize_keeps_settings_in_range(s: ChipSettings)
    ensures
        chip_settings_in_range(s) ==> normalized_chip_settings(s) == s,
        chip_settings_in_range(default_chip_settings()),
{
}

/// Normalizing twice is normalizing once.
pub proof fn lemma_normalize_idempotent(s: ChipSettings)
    ensures
        normalized_chip_settings(normalized_chip_settings(s)) == normalized_chip_settings(s),
{
    lemma_normalize_keeps_settings_in_range(normalized_chip_settings(s));
}

/// Whether `r` is the value of `[low, high]` nearest to `x`: `x` itself when
/// it lies in the interval, else the bound on its side.
pub open spec fn is_nearest_in(r: int, x: int, low: int, high: int) -> bool {
    &&& low <= r <= high
    &&& low <= x <= high ==> r == x
    &&& x < low ==> r == low
    &&& x > high ==> r == high
    &&& forall|v: int| low <= v <= high ==> #[trigger] abs_diff(r, x) <= abs_diff(v, x)
}

/// The distance between two integers.
pub open spec fn abs_diff(a: int, b: int) -> int {
    if a >= b {
        a - b
    } else {
        b - a
    }
}

/// Normalizing moves each setting to the allowed value nearest to it: the
/// height into `[20, 64]`, the font size into `[8, 24]`, the smallest width
/// into `[48, 480]`, the largest width between the new smallest width and
/// 640, and the fixed width between the new smallest and largest widths. A
/// fixed width below the smallest width becomes the smallest width, one above
/// the largest becomes the largest, and one between them is kept.
pub proof fn lemma_normalize_moves_to_nearest(s: ChipSettings)
    ensures
        ({
            let r = normalized_chip_settings(s);
            &&& r.auto_width == s.auto_width
            &&& is_nearest_in(r.height as int, s.height as int, 20, 64)
            &&& is_nearest_in(r.font_size as int, s.font_size as int, 8, 24)
            &&& is_nearest_in(r.min_width as int, s.min_width as int, 48, 480)
            &&& is_nearest_in(r.max_width as int, s.max_width as int, r.min_width as int, 640)
            &&& is_nearest_in(
                r.fixed_width as int,
                s.fixed_width as int,
                r.min_width as int,
                r.max_width as int,
            )
        }),
{
}

/// Chip settings as text values, as the settings table stores them; a value
/// is absent when no row holds it.
#[derive(Debug, Clone, PartialEq, Eq)]
pub struct StoredChipSettings {
    pub auto_width: Option<String>,
    pub fixed_width: Option<String>,
    pub height: Option<String>,
    pub min_width: Option<String>,
    pub max_width: Option<String>,
    pub font_size: Option<String>,
}

/// How a `bool` is written: `true` or `false`.
pub open spec fn bool_text(b: bool) -> Seq<char> {
    if b {
        "true"@
    } else {
        "false"@
    }
}

/// What parsing a text as a `bool` gives: only `true` and `false` are read.
pub open spec fn parsed_bool(s: Seq<char>) -> Option<bool> {
    if s == "true"@ {
        Some(true)
    } else if s == "false"@ {
        Some(false)
    } else {
        None
    }
}

/// A stored text read as a `bool`, or the default when it is absent or does
/// not read.
pub open spec fn stored_bool_or(value: Option<String>, default: bool) -> bool {
    match value {
        Some(text) => match parsed_bool(text@) {
            Some(b) => b,
            None => default,
        },
        None => default,
    }
}

/// A stored text read as an `i32`, or the default when it is absent or does
/// not read.
pub open spec fn stored_i32_or(value: Option<String>, default: i32) -> i32 {
    match value {
        Some(text) => match parsed_i32(text@) {
            Some(n) => n,
            None => default,
        },
        None => default,
    }
}

/// The settings that stored values give: each value that reads replaces the
/// default, and the result is brought into range.
pub open spec fn chip_settings_of_stored(stored: StoredChipSettings) -> ChipSettings {
    let d = default_chip_settings();
    normalized_chip_settings(
        ChipSettings {
            auto_width: stored_bool_or(stored.auto_width, d.auto_width),
            fixed_width: stored_i32_or(stored.fixed_width, d.fixed_width),
            height: stored_i32_or(stored.height, d.height),
            min_width: stored_i32_or(stored.min_width, d.min_width),
            max_width: stored_i32_or(stored.max_width, d.max_width),
            font_size: stored_i32_or(stored.font_size, d.font_size),
        },
    )
}

fn read_bool_or(value: &Option<String>, default: bool) -> (b: bool)
    ensures
        b == stored_bool_or(*value, default),
{
    match value {
        Some(text) => if same_text(text.as_str(), "true") {
            true
        } else if same_text(text.as_str(), "false") {
            false
        } else {
            default
        },
        None => default,
    }
}

fn read_i32_or(value: &Option<String>, default: i32) -> (n: i32)
    ensures
        n == stored_i32_or(*value, default),
{
    match value {
        Some(text) => match parse_i32(text.as_str()) {
            Some(n) => n,
            None => default,
        },
        None => default,
    }
}

/// Reads chip settings from their stored text values.
pub fn chip_settings_from_stored(stored: &StoredChipSettings) -> (settings: ChipSettings)
    ensures
        settings == chip_settings_of_stored(*stored),
        chip_settings_in_range(settings),
{
    let defaults = ChipSettings::default();
    let auto_width = read_bool_or(&stored.auto_width, defaults.auto_width);
    let fixed_width = read_i32_or(&stored.fixed_width, defaults.fixed_width);
    let height = read_i32_or(&stored.height, defaults.height);
    let min_width = read_i32_or(&stored.min_width, defaults.min_width);
    let max_width = read_i32_or(&stored.max_width, defaults.max_width);
    let font_size = read_i32_or(&stored.font_size, defaults.font_size);
    normalize_chip_settings(
        ChipSettings { auto_width, fixed_width, height, min_width, max_width, font_size },
    )
}

/// Whether stored values are the texts of the given settings.
pub open spec fn stores_settings(stored: StoredChipSettings, s: ChipSettings) -> bool {
    &&& stored.auto_width matches Some(t) && t@ == bool_text(s.auto_width)
    &&& stored.fixed_width matches Some(t) && t@ == i32_text(s.fixed_width)
    &&& stored.height matches Some(t) && t@ == i32_text(s.height)
    &&& stored.min_width matches Some(t) && t@ == i32_text(s.min_width)
    &&& stored.max_width matches Some(t) && t@ == i32_text(s.max_width)
    &&& stored.font_size matches Some(t) && t@ == i32_text(s.font_size)
}

/// The text values under which chip settings are stored.
pub fn chip_settings_to_stored(settings: &ChipSettings) -> (stored: StoredChipSettings)
    ensures
        stores_settings(stored, *settings),
{
    let auto_width = if settings.auto_width {
        "true".to_owned()
    } else {
        "false".to_owned()
    };
    StoredChipSettings {
        auto_width: Some(auto_width),
        fixed_width: Some(i32_to_text(settings.fixed_width)),
        height: Some(i32_to_text(settings.height)),
        min_width: Some(i32_to_text(settings.min_width)),
        max_width: Some(i32_to_text(settings.max_width)),
        font_size: Some(i32_to_text(settings.font_size)),
    }
}

/// Reading back stored chip settings gives the settings brought into range,
/// that is the settings themselves when they were in range.
pub proof fn lemma_chip_settings_round_trip(stored: StoredChipSettings, s: ChipSettings)
    requires
        stores_settings(stored, s),
    ensures
        chip_settings_of_stored(stored) == normalized_chip_settings(s),
        chip_settings_in_range(s) ==> chip_settings_of_stored(stored) == s,
{
    reveal_strlit("true");
    reveal_strlit("false");
    lemma_i32_text_round_trip(s.fixed_width);
    lemma_i32_text_round_trip(s.height);
    lemma_i32_text_round_trip(s.min_width);
    lemma_i32_text_round_trip(s.max_width);
    lemma_i32_text_round_trip(s.font_size);
    assert("true"@.len() == 4 && "false"@.len() == 5);
    lemma_normalize_keeps_settings_in_range(s);
}

/// Most title characters a chip shows before it cuts the title short.
pub const CHIP_TITLE_CHARS: usize = 22;

/// The text a chip shows for a note title: the title without surrounding
/// white space, `Untitled` when nothing is left, cut to 22 characters with an
/// ellipsis when longer.
pub open spec fn chip_title_text(title: Seq<char>) -> Seq<char> {
    let t = trimmed(title);
    let source = if t.len() == 0 {
        "Untitled"@
    } else {
        t
    };
    if source.len() > CHIP_TITLE_CHARS {
        source.subrange(0, CHIP_TITLE_CHARS as int) + "\u{2026}"@
    } else {
        source
    }
}

/// What a chip shows for a title, by the title without its surrounding
/// white space: `Untitled` when nothing is left; the title itself when it has
/// at most 22 characters; else its first 22 characters followed by an
/// ellipsis, 23 characters in all. The text is never longer than 23
/// characters.
pub proof fn lemma_chip_title_shape(title: Seq<char>)
    ensures
        ({
            let t = trimmed(title);
            let text = chip_title_text(title);
            &&& text.len() <= CHIP_TITLE_CHARS + 1
            &&& t.len() == 0 ==> text == "Untitled"@
            &&& 0 < t.len() <= CHIP_TITLE_CHARS ==> text == t
            &&& t.len() > CHIP_TITLE_CHARS ==> {
                &&& text.len() == CHIP_TITLE_CHARS + 1
                &&& forall|i: int| 0 <= i < CHIP_TITLE_CHARS ==> #[trigger] text[i] == t[i]
                &&& text[CHIP_TITLE_CHARS as int] == '\u{2026}'
            }
        }),
{
    reveal_strlit("Untitled");
    reveal_strlit("\u{2026}");
}

/// The text a chip shows for a note title.
pub fn compact_chip_title(title: &str) -> (text: String)
    ensures
        text@ == chip_title_text(title@),
{
    let trimmed_title = trim_text(title);
    let source: &str = if trimmed_title.unicode_len() == 0 {
        "Untitled"
    } else {
        trimmed_title
    };
    if source.unicode_len() > CHIP_TITLE_CHARS {
        let mut short = source.substring_char(0, CHIP_TITLE_CHARS).to_owned();
        short.append("\u{2026}");
        short
    } else {
        source.to_owned()
    }
}

/// The width of a chip: the fixed width, or the title's natural width plus
/// room for the drag handle and the arrow, kept between the smallest and the
/// largest width.
pub open spec fn chip_width_for(s: ChipSettings, natural_title_width: int) -> int {
    if s.auto_width {
        clamped(natural_title_width + 42, s.min_width as int, s.max_width as int)
    } else {
        clamped(s.fixed_width as int, s.min_width as int, s.max_width as int)
    }
}

/// The width of a chip, given the natural width of its title text.
pub fn chip_width(settings: &ChipSettings, natural_title_width: i32) -> (width: i32)
    requires
        settings.min_width <= settings.max_width,
        settings.auto_width ==> natural_title_width <= i32::MAX - 42,
    ensures
        width == chip_width_for(*settings, natural_title_width as int),
{
    if !settings.auto_width {
        return clamp_i32(settings.fixed_width, settings.min_width, settings.max_width);
    }
    clamp_i32(natural_title_width + 42, settings.min_width, settings.max_width)
}

/// The chip width lies between the smallest and the largest width. A fixed
/// width between them is the chip width itself, one outside them gives the
/// nearer bound. A width that follows the title is the title's natural width
/// plus 42 pixels for the handle and the arrow, brought to the nearer bound
/// when it falls outside them.
pub proof fn lemma_chip_width_bounds(s: ChipSettings, natural_title_width: int)
    requires
        s.min_width <= s.max_width,
    ensures
        s.min_width <= chip_width_for(s, natural_title_width) <= s.max_width,
        !s.auto_width ==> is_nearest_in(
            chip_width_for(s, natural_title_width),
            s.fixed_width as int,
            s.min_width as int,
            s.max_width as int,
        ),
        !s.auto_width && s.min_width <= s.fixed_width <= s.max_width ==> chip_width_for(
            s,
            natural_title_width,
        ) == s.fixed_width,
        s.auto_width ==> is_nearest_in(
            chip_width_for(s, natural_title_width),
            natural_title_width + 42,
            s.min_width as int,
            s.max_width as int,
        ),
{
}

/// The smallest and largest width a chip window may take: the configured
/// bounds when the width follows the title, else exactly the chip width.
pub fn chip_window_width_limits(settings: &ChipSettings, width: i32) -> (limits: (i32, i32))
    ensures
        settings.auto_width ==> limits == (settings.min_width, settings.max_width),
        !settings.auto_width ==> limits == (width, width),
{
    if settings.auto_width {
        (settings.min_width, settings.max_width)
    } else {
        (width, width)
    }
}

/// Sticky window opacity, in percent, brought into `[40, 100]`.
pub fn clamp_opacity(opacity: i64) -> (r: i64)
    ensures
        r == clamped(opacity as int, 40, 100),
{
    if opacity < 40 {
        40
    } else if opacity > 100 {
        100
    } else {
        opacity
    }
}

/// The smallest size an expanded sticky window is stored with.
pub fn expanded_size_floor(width: i64, height: i64) -> (size: (i64, i64))
    ensures
        size.0 == if width < 260 { 260 } else { width },
        size.1 == if height < 180 { 180 } else { height },
{
    (if width < 260 { 260 } else { width }, if height < 180 { 180 } else { height })
}

/// The style sheet of chip windows: the chip's colours and corners, and the
/// font size of its handle, title and arrow (the arrow one pixel larger).
pub open spec fn chip_css_text(font_size: i32) -> Seq<char> {
    "#stickyflow-chip-root {\n    background-color: #fff1a8;\n    border-radius: 7px;\n}\n\n#stickyflow-chip-drag {\n    color: #756c46;\n    font-size: "@ + i32_text(font_size) + "px;\n}\n\n#stickyflow-chip-title {\n    color: #29261e;\n    font-size: "@ + i32_text(font_size) + "px;\n    font-weight: 600;\n}\n\n#stickyflow-chip-arrow {\n    color: #756c46;\n    font-size: "@ + i32_text(
        (font_size + 1) as i32,
    ) + "px;\n}\n"@
}

/// Whether a style sheet holds the rule opened by `head` (up to its
/// `font-size: `) followed by the size `size` in pixels.
pub open spec fn declares_font_size(css: Seq<char>, head: Seq<char>, size: i32) -> bool {
    exists|k: int|
        0 <= k && k + head.len() + i32_text(size).len() + 3 <= css.len() && #[trigger] css.subrange(
            k,
            k + head.len() + i32_text(size).len() + 3,
        ) == head + i32_text(size) + "px;"@
}

/// The opening of the drag handle's rule, up to its font size.
pub open spec fn chip_drag_rule_head() -> Seq<char> {
    "#stickyflow-chip-drag {\n    color: #756c46;\n    font-size: "@
}

/// The opening of the title's rule, up to its font size.
pub open spec fn chip_title_rule_head() -> Seq<char> {
    "#stickyflow-chip-title {\n    color: #29261e;\n    font-size: "@
}

/// The opening of the arrow's rule, up to its font size.
pub open spec fn chip_arrow_rule_head() -> Seq<char> {
    "#stickyflow-chip-arrow {\n    color: #756c46;\n    font-size: "@
}

/// The style sheet gives the drag handle and the title the font size asked
/// for, and the arrow one pixel more.
pub proof fn lemma_chip_css_font_sizes(font_size: i32)
    requires
        font_size < i32::MAX,
    ensures
        declares_font_size(chip_css_text(font_size), chip_drag_rule_head(), font_size),
        declares_font_size(chip_css_text(font_size), chip_title_rule_head(), font_size),
        declares_font_size(chip_css_text(font_size), chip_arrow_rule_head(), (font_size + 1) as i32),
{
    let css = chip_css_text(font_size);
    let a = "#stickyflow-chip-root {\n    background-color: #fff1a8;\n    border-radius: 7px;\n}\n\n#stickyflow-chip-drag {\n    color: #756c46;\n    font-size: "@;
    let b = "px;\n}\n\n#stickyflow-chip-title {\n    color: #29261e;\n    font-size: "@;
    let c = "px;\n    font-weight: 600;\n}\n\n#stickyflow-chip-arrow {\n    color: #756c46;\n    font-size: "@;
    let d = "px;\n}\n"@;
    let root = "#stickyflow-chip-root {\n    background-color: #fff1a8;\n    border-radius: 7px;\n}\n\n"@;
    let close = "px;\n}\n\n"@;
    let close_weight = "px;\n    font-weight: 600;\n}\n\n"@;
    let px = "px;"@;
    reveal_strlit("#stickyflow-chip-root {\n    background-color: #fff1a8;\n    border-radius: 7px;\n}\n\n#stickyflow-chip-drag {\n    color: #756c46;\n    font-size: ");
    reveal_strlit("px;\n}\n\n#stickyflow-chip-title {\n    color: #29261e;\n    font-size: ");
    reveal_strlit("px;\n    font-weight: 600;\n}\n\n#stickyflow-chip-arrow {\n    color: #756c46;\n    font-size: ");
    reveal_strlit("px;\n}\n");
    reveal_strlit("#stickyflow-chip-root {\n    background-color: #fff1a8;\n    border-radius: 7px;\n}\n\n");
    reveal_strlit("px;\n}\n\n");
    reveal_strlit("px;\n    font-weight: 600;\n}\n\n");
    reveal_strlit("px;");
    reveal_strlit("#stickyflow-chip-drag {\n    color: #756c46;\n    font-size: ");
    reveal_strlit("#stickyflow-chip-title {\n    color: #29261e;\n    font-size: ");
    reveal_strlit("#stickyflow-chip-arrow {\n    color: #756c46;\n    font-size: ");
    let t1 = i32_text(font_size);
    let t3 = i32_text((font_size + 1) as i32);
    assert(a =~= root + chip_drag_rule_head());
    assert(b =~= close + chip_title_rule_head());
    assert(c =~= close_weight + chip_arrow_rule_head());
    assert(css == a + t1 + b + t1 + c + t3 + d);
    let k1 = root.len() as int;
    assert(css.subrange(k1, k1 + chip_drag_rule_head().len() + t1.len() + 3) =~= chip_drag_rule_head() + t1 + px);
    let k2 = (a.len() + t1.len() + close.len()) as int;
    assert(css.subrange(k2, k2 + chip_title_rule_head().len() + t1.len() + 3) =~= chip_title_rule_head() + t1 + px);
    let k3 = (a.len() + t1.len() + b.len() + t1.len() + close_weight.len()) as int;
    assert(css.subrange(k3, k3 + chip_arrow_rule_head().len() + t3.len() + 3) =~= chip_arrow_rule_head() + t3 + px);
}

/// The style sheet of chip windows for a font size.
pub fn chip_css(font_size: i32) -> (css: String)
    requires
        font_size < i32::MAX,
    ensures
        css@ == chip_css_text(font_size),
{
    let mut css = String::new();
    css.append("#stickyflow-chip-root {\n    background-color: #fff1a8;\n    border-radius: 7px;\n}\n\n#stickyflow-chip-drag {\n    color: #756c46;\n    font-size: ");
    css.append(i32_to_text(font_size).as_str());
    css.append("px;\n}\n\n#stickyflow-chip-title {\n    color: #29261e;\n    font-size: ");
    css.append(i32_to_text(font_size).as_str());
    css.append("px;\n    font-weight: 600;\n}\n\n#stickyflow-chip-arrow {\n    color: #756c46;\n    font-size: ");
    css.append(i32_to_text(font_size + 1).as_str());
    css.append("px;\n}\n");
    css
}

} // verus!
