//! Colour themes.

use vstd::prelude::*;

use crate::text;

verus! {

/// A colour of the terminal.
#[derive(Clone, Copy, Debug, PartialEq, Eq, Structural)]
pub enum Color {
    Reset,
    Black,
    Red,
    Green,
    Yellow,
    Cyan,
    DarkGray,
    Rgb(u8, u8, u8),
}

#[derive(Clone, Copy, Debug)]
pub struct Theme {
    pub name: &'static str,
    pub bg: Color,
    pub fg: Color,
    pub surface: Color,
    pub border: Color,
    pub border_focused: Color,
    pub accent: Color,
    pub accent_fg: Color,
    pub muted: Color,
    pub ok: Color,
    pub warn: Color,
    pub err: Color,
    pub title: Color,
}

/// How many themes there are. Each constant below is the place of a theme in
/// the list.
pub const THEME_COUNT: usize = 14;

pub const DEFAULT: usize = 0;

pub const CATPPUCCIN_LATTE: usize = 1;

pub const CATPPUCCIN_FRAPPE: usize = 2;

pub const CATPPUCCIN_MACCHIATO: usize = 3;

pub const CATPPUCCIN_MOCHA: usize = 4;

pub const ROSE_PINE: usize = 5;

pub const ROSE_PINE_MOON: usize = 6;

pub const ROSE_PINE_DAWN: usize = 7;

pub const TOKYO_NIGHT: usize = 8;

pub const TOKYO_NIGHT_STORM: usize = 9;

pub const GRUVBOX_DARK: usize = 10;

pub const GRUVBOX_LIGHT: usize = 11;

pub const NORD: usize = 12;

pub const DRACULA: usize = 13;

/// The colour that a number of six hexadecimal digits stands for: two digits
/// each for red, green and blue.
pub open spec fn rgb_of(hex: u32) -> Color {
    Color::Rgb((hex / 0x10000 % 0x100) as u8, (hex / 0x100 % 0x100) as u8, (hex % 0x100) as u8)
}

pub fn rgb(hex: u32) -> (r: Color)
    ensures
        r == rgb_of(hex),
{
    assert((hex >> 16) & 0xff == hex / 0x10000 % 0x100) by (bit_vector);
    assert((hex >> 8) & 0xff == hex / 0x100 % 0x100) by (bit_vector);
    assert(hex & 0xff == hex % 0x100) by (bit_vector);
    Color::Rgb(((hex >> 16) & 0xff) as u8, ((hex >> 8) & 0xff) as u8, (hex & 0xff) as u8)
}

/// The name of the theme at a place of the list.
pub open spec fn name_at(k: int) -> Seq<char> {
    if k == 0 {
        "default"@
    } else if k == 1 {
        "catppuccin-latte"@
    } else if k == 2 {
        "catppuccin-frappe"@
    } else if k == 3 {
        "catppuccin-macchiato"@
    } else if k == 4 {
        "catppuccin-mocha"@
    } else if k == 5 {
        "rose-pine"@
    } else if k == 6 {
        "rose-pine-moon"@
    } else if k == 7 {
        "rose-pine-dawn"@
    } else if k == 8 {
        "tokyo-night"@
    } else if k == 9 {
        "tokyo-night-storm"@
    } else if k == 10 {
        "gruvbox-dark"@
    } else if k == 11 {
        "gruvbox-light"@
    } else if k == 12 {
        "nord"@
    } else {
        "dracula"@
    }
}

/// The colours of a theme, in the order of the fields, as numbers of six
/// hexadecimal digits. The default theme uses the terminal's own colours.
pub open spec fn palette(k: int) -> Seq<u32> {
    if k == 1 {
        seq![
            0xeff1f5, 0x4c4f69, 0xccd0da, 0x9ca0b0, 0x8839ef, 0x8839ef,
            0xeff1f5, 0x6c6f85, 0x40a02b, 0xdf8e1d, 0xd20f39, 0x1e66f5,
        ]
    } else if k == 2 {
        seq![
            0x303446, 0xc6d0f5, 0x414559, 0x737994, 0xca9ee6, 0xca9ee6,
            0x303446, 0x838ba7, 0xa6d189, 0xe5c890, 0xe78284, 0x8caaee,
        ]
    } else if k == 3 {
        seq![
            0x24273a, 0xcad3f5, 0x363a4f, 0x6e738d, 0xc6a0f6, 0xc6a0f6,
            0x24273a, 0x8087a2, 0xa6da95, 0xeed49f, 0xed8796, 0x8aadf4,
        ]
    } else if k == 4 {
        seq![
            0x1e1e2e, 0xcdd6f4, 0x313244, 0x6c7086, 0xcba6f7, 0xcba6f7,
            0x1e1e2e, 0x7f849c, 0xa6e3a1, 0xf9e2af, 0xf38ba8, 0x89b4fa,
        ]
    } else if k == 5 {
        seq![
            0x191724, 0xe0def4, 0x1f1d2e, 0x403d52, 0xc4a7e7, 0xc4a7e7,
            0x191724, 0x6e6a86, 0x9ccfd8, 0xf6c177, 0xeb6f92, 0xebbcba,
        ]
    } else if k == 6 {
        seq![
            0x232136, 0xe0def4, 0x2a273f, 0x44415a, 0xc4a7e7, 0xc4a7e7,
            0x232136, 0x6e6a86, 0x9ccfd8, 0xf6c177, 0xeb6f92, 0xea9a97,
        ]
    } else if k == 7 {
        seq![
            0xfaf4ed, 0x575279, 0xfffaf3, 0xcecacd, 0x907aa9, 0x907aa9,
            0xfaf4ed, 0x797593, 0x286983, 0xea9d34, 0xb4637a, 0xd7827e,
        ]
    } else if k == 8 {
        seq![
            0x1a1b26, 0xc0caf5, 0x24283b, 0x414868, 0x7aa2f7, 0x7aa2f7,
            0x1a1b26, 0x565f89, 0x9ece6a, 0xe0af68, 0xf7768e, 0xbb9af7,
        ]
    } else if k == 9 {
        seq![
            0x24283b, 0xc0caf5, 0x2f334d, 0x545c7e, 0x7aa2f7, 0x7aa2f7,
            0x24283b, 0x565f89, 0x9ece6a, 0xe0af68, 0xf7768e, 0xbb9af7,
        ]
    } else if k == 10 {
        seq![
            0x282828, 0xebdbb2, 0x3c3836, 0x665c54, 0xfabd2f, 0xfabd2f,
            0x282828, 0x928374, 0xb8bb26, 0xfe8019, 0xfb4934, 0x8ec07c,
        ]
    } else if k == 11 {
        seq![
            0xfbf1c7, 0x3c3836, 0xebdbb2, 0xa89984, 0xb57614, 0xb57614,
            0xfbf1c7, 0x7c6f64, 0x79740e, 0xaf3a03, 0x9d0006, 0x427b58,
        ]
    } else if k == 12 {
        seq![
            0x2e3440, 0xeceff4, 0x3b4252, 0x4c566a, 0x88c0d0, 0x88c0d0,
            0x2e3440, 0x4c566a, 0xa3be8c, 0xebcb8b, 0xbf616a, 0x81a1c1,
        ]
    } else {
        seq![
            0x282a36, 0xf8f8f2, 0x44475a, 0x6272a4, 0xbd93f9, 0xbd93f9,
            0x282a36, 0x6272a4, 0x50fa7b, 0xf1fa8c, 0xff5555, 0xff79c6,
        ]
    }
}

/// The theme is the one at a place of the list.
pub open spec fn is_theme(t: Theme, k: int) -> bool {
    &&& t.name@ == name_at(k)
    &&& if k == 0 {
        &&& t.bg == Color::Reset
        &&& t.fg == Color::Reset
        &&& t.surface == Color::Reset
        &&& t.border == Color::DarkGray
        &&& t.border_focused == Color::Cyan
        &&& t.accent == Color::Cyan
        &&& t.accent_fg == Color::Black
        &&& t.muted == Color::DarkGray
        &&& t.ok == Color::Green
        &&& t.warn == Color::Yellow
        &&& t.err == Color::Red
        &&& t.title == Color::Cyan
    } else {
        &&& t.bg == rgb_of(palette(k)[0])
        &&& t.fg == rgb_of(palette(k)[1])
        &&& t.surface == rgb_of(palette(k)[2])
        &&& t.border == rgb_of(palette(k)[3])
        &&& t.border_focused == rgb_of(palette(k)[4])
        &&& t.accent == rgb_of(palette(k)[5])
        &&& t.accent_fg == rgb_of(palette(k)[6])
        &&& t.muted == rgb_of(palette(k)[7])
        &&& t.ok == rgb_of(palette(k)[8])
        &&& t.warn == rgb_of(palette(k)[9])
        &&& t.err == rgb_of(palette(k)[10])
        &&& t.title == rgb_of(palette(k)[11])
    }
}

fn painted(name: &'static str, hex: [u32; 12]) -> (r: Theme)
    ensures
        r.name == name,
        r.bg == rgb_of(hex@[0]),
        r.fg == rgb_of(hex@[1]),
        r.surface == rgb_of(hex@[2]),
        r.border == rgb_of(hex@[3]),
        r.border_focused == rgb_of(hex@[4]),
        r.accent == rgb_of(hex@[5]),
        r.accent_fg == rgb_of(hex@[6]),
        r.muted == rgb_of(hex@[7]),
        r.ok == rgb_of(hex@[8]),
        r.warn == rgb_of(hex@[9]),
        r.err == rgb_of(hex@[10]),
        r.title == rgb_of(hex@[11]),
{
    Theme {
        name,
        bg: rgb(hex[0]),
        fg: rgb(hex[1]),
        surface: rgb(hex[2]),
        border: rgb(hex[3]),
        border_focused: rgb(hex[4]),
        accent: rgb(hex[5]),
        accent_fg: rgb(hex[6]),
        muted: rgb(hex[7]),
        ok: rgb(hex[8]),
        warn: rgb(hex[9]),
        err: rgb(hex[10]),
        title: rgb(hex[11]),
    }
}

/// The theme at a place of the list.
pub fn theme_at(k: usize) -> (r: Theme)
    requires
        k < THEME_COUNT,
    ensures
        is_theme(r, k as int),
{
    if k == 0 {
        Theme {
            name: "default",
            bg: Color::Reset,
            fg: Color::Reset,
            surface: Color::Reset,
            border: Color::DarkGray,
            border_focused: Color::Cyan,
            accent: Color::Cyan,
            accent_fg: Color::Black,
            muted: Color::DarkGray,
            ok: Color::Green,
            warn: Color::Yellow,
            err: Color::Red,
            title: Color::Cyan,
        }
    } else if k == 1 {
        painted(
            "catppuccin-latte",
            [
                0xeff1f5, 0x4c4f69, 0xccd0da, 0x9ca0b0, 0x8839ef, 0x8839ef,
                0xeff1f5, 0x6c6f85, 0x40a02b, 0xdf8e1d, 0xd20f39, 0x1e66f5,
            ],
        )
    } else if k == 2 {
        painted(
            "catppuccin-frappe",
            [
                0x303446, 0xc6d0f5, 0x414559, 0x737994, 0xca9ee6, 0xca9ee6,
                0x303446, 0x838ba7, 0xa6d189, 0xe5c890, 0xe78284, 0x8caaee,
            ],
        )
    } else if k == 3 {
        painted(
            "catppuccin-macchiato",
            [
                0x24273a, 0xcad3f5, 0x363a4f, 0x6e738d, 0xc6a0f6, 0xc6a0f6,
                0x24273a, 0x8087a2, 0xa6da95, 0xeed49f, 0xed8796, 0x8aadf4,
            ],
        )
    } else if k == 4 {
        painted(
            "catppuccin-mocha",
            [
                0x1e1e2e, 0xcdd6f4, 0x313244, 0x6c7086, 0xcba6f7, 0xcba6f7,
                0x1e1e2e, 0x7f849c, 0xa6e3a1, 0xf9e2af, 0xf38ba8, 0x89b4fa,
            ],
        )
    } else if k == 5 {
        painted(
            "rose-pine",
            [
                0x191724, 0xe0def4, 0x1f1d2e, 0x403d52, 0xc4a7e7, 0xc4a7e7,
                0x191724, 0x6e6a86, 0x9ccfd8, 0xf6c177, 0xeb6f92, 0xebbcba,
            ],
        )
    } else if k == 6 {
        painted(
            "rose-pine-moon",
            [
                0x232136, 0xe0def4, 0x2a273f, 0x44415a, 0xc4a7e7, 0xc4a7e7,
                0x232136, 0x6e6a86, 0x9ccfd8, 0xf6c177, 0xeb6f92, 0xea9a97,
            ],
        )
    } else if k == 7 {
        painted(
            "rose-pine-dawn",
            [
                0xfaf4ed, 0x575279, 0xfffaf3, 0xcecacd, 0x907aa9, 0x907aa9,
                0xfaf4ed, 0x797593, 0x286983, 0xea9d34, 0xb4637a, 0xd7827e,
            ],
        )
    } else if k == 8 {
        painted(
            "tokyo-night",
            [
                0x1a1b26, 0xc0caf5, 0x24283b, 0x414868, 0x7aa2f7, 0x7aa2f7,
                0x1a1b26, 0x565f89, 0x9ece6a, 0xe0af68, 0xf7768e, 0xbb9af7,
            ],
        )
    } else if k == 9 {
        painted(
            "tokyo-night-storm",
            [
                0x24283b, 0xc0caf5, 0x2f334d, 0x545c7e, 0x7aa2f7, 0x7aa2f7,
                0x24283b, 0x565f89, 0x9ece6a, 0xe0af68, 0xf7768e, 0xbb9af7,
            ],
        )
    } else if k == 10 {
        painted(
            "gruvbox-dark",
            [
                0x282828, 0xebdbb2, 0x3c3836, 0x665c54, 0xfabd2f, 0xfabd2f,
                0x282828, 0x928374, 0xb8bb26, 0xfe8019, 0xfb4934, 0x8ec07c,
            ],
        )
    } else if k == 11 {
        painted(
            "gruvbox-light",
            [
                0xfbf1c7, 0x3c3836, 0xebdbb2, 0xa89984, 0xb57614, 0xb57614,
                0xfbf1c7, 0x7c6f64, 0x79740e, 0xaf3a03, 0x9d0006, 0x427b58,
            ],
        )
    } else if k == 12 {
        painted(
            "nord",
            [
                0x2e3440, 0xeceff4, 0x3b4252, 0x4c566a, 0x88c0d0, 0x88c0d0,
                0x2e3440, 0x4c566a, 0xa3be8c, 0xebcb8b, 0xbf616a, 0x81a1c1,
            ],
        )
    } else {
        painted(
            "dracula",
            [
                0x282a36, 0xf8f8f2, 0x44475a, 0x6272a4, 0xbd93f9, 0xbd93f9,
                0x282a36, 0x6272a4, 0x50fa7b, 0xf1fa8c, 0xff5555, 0xff79c6,
            ],
        )
    }
}

/// The first theme from `k` on whose name is `name`, whatever the case of its
/// letters.
pub open spec fn found_from(k: int, name: Seq<char>) -> Option<int>
    decreases THEME_COUNT - k,
{
    if k >= THEME_COUNT {
        None
    } else if text::same_ignoring_case(name_at(k), name) {
        Some(k)
    } else {
        found_from(k + 1, name)
    }
}

/// The theme of a name, whatever the case of its letters.
pub fn by_name(name: &str) -> (r: Option<Theme>)
    ensures
        match found_from(0, name@) {
            Some(k) => r matches Some(t) && is_theme(t, k) && 0 <= k < THEME_COUNT,
            None => r is None,
        },
{
    let mut k: usize = 0;
    while k < THEME_COUNT
        invariant
            k <= THEME_COUNT,
            found_from(k as int, name@) == found_from(0, name@),
        decreases THEME_COUNT - k,
    {
        let t = theme_at(k);
        if text::eq_ignore_ascii_case(t.name, name) {
            return Some(t);
        }
        k += 1;
    }
    None
}

/// The first theme from `k` on whose name is exactly `name`.
pub open spec fn place_from(k: int, name: Seq<char>) -> Option<int>
    decreases THEME_COUNT - k,
{
    if k >= THEME_COUNT {
        None
    } else if name_at(k) == name {
        Some(k)
    } else {
        place_from(k + 1, name)
    }
}

/// The place of the theme of a name; the first place where there is none.
pub open spec fn place_of(name: Seq<char>) -> int {
    match place_from(0, name) {
        Some(k) => k,
        None => 0,
    }
}

/// The place of the theme of a name; the first place where there is none.
pub fn index_of(name: &str) -> (r: usize)
    ensures
        r == place_of(name@),
        r < THEME_COUNT,
{
    let mut k: usize = 0;
    while k < THEME_COUNT
        invariant
            k <= THEME_COUNT,
            place_from(k as int, name@) == place_from(0, name@),
        decreases THEME_COUNT - k,
    {
        let t = theme_at(k);
        if text::same_text(t.name, name) {
            return k;
        }
        k += 1;
    }
    0
}

/// All themes, in the order of the list.
pub fn all() -> (r: Vec<Theme>)
    ensures
        r@.len() == THEME_COUNT,
        forall|k: int| 0 <= k < THEME_COUNT ==> is_theme(#[trigger] r@[k], k),
{
    let mut v: Vec<Theme> = Vec::new();
    let mut k: usize = 0;
    while k < THEME_COUNT
        invariant
            k <= THEME_COUNT,
            v@.len() == k,
            forall|j: int| 0 <= j < k ==> is_theme(#[trigger] v@[j], j),
        decreases THEME_COUNT - k,
    {
        v.push(theme_at(k));
        k += 1;
    }
    v
}

/// No two themes have the same name.
pub proof fn theme_names_are_distinct(j: int, k: int)
    requires
        0 <= j < k < THEME_COUNT,
    ensures
        name_at(j) != name_at(k),
{
    reveal_strlit("default");
    reveal_strlit("catppuccin-latte");
    reveal_strlit("catppuccin-frappe");
    reveal_strlit("catppuccin-macchiato");
    reveal_strlit("catppuccin-mocha");
    reveal_strlit("rose-pine");
    reveal_strlit("rose-pine-moon");
    reveal_strlit("rose-pine-dawn");
    reveal_strlit("tokyo-night");
    reveal_strlit("tokyo-night-storm");
    reveal_strlit("gruvbox-dark");
    reveal_strlit("gruvbox-light");
    reveal_strlit("nord");
    reveal_strlit("dracula");
    assert(name_at(0).len() == 7);
    assert(name_at(1).len() == 16);
    assert(name_at(2).len() == 17);
    assert(name_at(3).len() == 20);
    assert(name_at(4).len() == 16);
    assert(name_at(5).len() == 9);
    assert(name_at(6).len() == 14);
    assert(name_at(7).len() == 14);
    assert(name_at(8).len() == 11);
    assert(name_at(9).len() == 17);
    assert(name_at(10).len() == 12);
    assert(name_at(11).len() == 13);
    assert(name_at(12).len() == 4);
    assert(name_at(13).len() == 7);
    assert(name_at(0)[1] != name_at(13)[1]);
    assert(name_at(1)[11] != name_at(4)[11]);
    assert(name_at(2)[0] != name_at(9)[0]);
    assert(name_at(6)[10] != name_at(7)[10]);
    if name_at(j) == name_at(k) {
        assert(name_at(j).len() == name_at(k).len());
    }
}

proof fn lemma_place_from(j: int, k: int)
    requires
        0 <= j <= k < THEME_COUNT,
    ensures
        place_from(j, name_at(k)) == Some(k),
    decreases k - j,
{
    if j < k {
        theme_names_are_distinct(j, k);
        lemma_place_from(j + 1, k);
    }
}

/// Every theme is found again under its own name.
pub proof fn every_theme_is_found_by_its_name(k: int)
    requires
        0 <= k < THEME_COUNT,
    ensures
        place_of(name_at(k)) == k,
{
    lemma_place_from(0, k);
}

/// A colour keeps its number: red, green and blue are its digits, two by two.
pub proof fn a_colour_keeps_its_number(red: u8, green: u8, blue: u8)
    ensures
        rgb_of((red * 0x10000 + green * 0x100 + blue) as u32) == Color::Rgb(red, green, blue),
{
    let hex = (red * 0x10000 + green * 0x100 + blue) as u32;
    assert(hex == red * 0x10000 + green * 0x100 + blue);
    assert(hex / 0x10000 % 0x100 == red && hex / 0x100 % 0x100 == green && hex % 0x100 == blue)
        by (nonlinear_arith)
        requires
            hex == red * 0x10000 + green * 0x100 + blue,
            red < 0x100,
            green < 0x100,
            blue < 0x100,
    ;
}

/// A theme is found under its name in any spelling, and nothing is found under
/// a name that no theme has.
pub proof fn a_theme_is_found_in_any_spelling(name: Seq<char>, k: int)
    ensures
        found_from(0, name) matches Some(j) ==> 0 <= j < THEME_COUNT && text::same_ignoring_case(
            name_at(j),
            name,
        ),
        found_from(0, name) is None && 0 <= k < THEME_COUNT ==> !text::same_ignoring_case(
            name_at(k),
            name,
        ),
        0 <= k < THEME_COUNT && text::same_ignoring_case(name_at(k), name) ==> found_from(0, name)
            is Some,
        THEME_COUNT == 14,
{
    lemma_found_from(0, name, k);
}

proof fn lemma_found_from(from: int, name: Seq<char>, k: int)
    requires
        0 <= from <= THEME_COUNT,
    ensures
        found_from(from, name) matches Some(j) ==> from <= j < THEME_COUNT
            && text::same_ignoring_case(name_at(j), name),
        found_from(from, name) is None && from <= k < THEME_COUNT ==> !text::same_ignoring_case(
            name_at(k),
            name,
        ),
    decreases THEME_COUNT - from,
{
    if from < THEME_COUNT {
        lemma_found_from(from + 1, name, k);
    }
}

/// In every theme the text can be told from the background, on a selected row
/// too, and success, warning and error can be told from each other. The named
/// themes write on a selected row in the colour of the background, and frame
/// the table in focus in the colour of the selection.
pub proof fn every_theme_can_be_read(t: Theme, k: int)
    requires
        0 <= k < THEME_COUNT,
        is_theme(t, k),
    ensures
        t.accent != t.accent_fg,
        t.border != t.border_focused,
        t.ok != t.err && t.ok != t.warn && t.warn != t.err,
        t.ok != t.bg && t.warn != t.bg && t.err != t.bg && t.title != t.bg,
        t.border_focused == t.accent,
        k > 0 ==> t.fg != t.bg && t.fg != t.surface && t.muted != t.bg && t.surface != t.bg,
        k > 0 ==> t.accent_fg == t.bg,
{
    if k > 0 {
        let p = palette(k);
        lemma_palette(k);
        lemma_colours_differ(p[5], p[6]);
        lemma_colours_differ(p[3], p[4]);
        lemma_colours_differ(p[8], p[10]);
        lemma_colours_differ(p[8], p[9]);
        lemma_colours_differ(p[9], p[10]);
        lemma_colours_differ(p[8], p[0]);
        lemma_colours_differ(p[9], p[0]);
        lemma_colours_differ(p[10], p[0]);
        lemma_colours_differ(p[11], p[0]);
        lemma_colours_differ(p[1], p[0]);
        lemma_colours_differ(p[1], p[2]);
        lemma_colours_differ(p[7], p[0]);
        lemma_colours_differ(p[2], p[0]);
    }
}

/// Different numbers of six digits are different colours.
proof fn lemma_colours_differ(a: u32, b: u32)
    requires
        a < 0x1000000,
        b < 0x1000000,
        a != b,
    ensures
        rgb_of(a) != rgb_of(b),
{
    assert(a == a / 0x10000 % 0x100 * 0x10000 + a / 0x100 % 0x100 * 0x100 + a % 0x100);
    assert(b == b / 0x10000 % 0x100 * 0x10000 + b / 0x100 % 0x100 * 0x100 + b % 0x100);
}

/// The numbers of a palette that stand for different colours.
spec fn is_legible(p: Seq<u32>) -> bool {
    &&& forall|i: int| 0 <= i < 12 ==> #[trigger] p[i] < 0x1000000
    &&& p[5] != p[6] && p[3] != p[4] && p[4] == p[5] && p[6] == p[0]
    &&& p[8] != p[10] && p[8] != p[9] && p[9] != p[10]
    &&& p[8] != p[0] && p[9] != p[0] && p[10] != p[0] && p[11] != p[0]
    &&& p[1] != p[0] && p[1] != p[2] && p[7] != p[0] && p[2] != p[0]
}

#[verifier::spinoff_prover]
#[verifier::rlimit(60)]
proof fn lemma_palette(k: int)
    requires
        0 < k < THEME_COUNT,
    ensures
        is_legible(palette(k)),
{
    if k == 1 {
        assert(is_legible(palette(1)));
    } else if k == 2 {
        assert(is_legible(palette(2)));
    } else if k == 3 {
        assert(is_legible(palette(3)));
    } else if k == 4 {
        assert(is_legible(palette(4)));
    } else if k == 5 {
        assert(is_legible(palette(5)));
    } else if k == 6 {
        assert(is_legible(palette(6)));
    } else if k == 7 {
        assert(is_legible(palette(7)));
    } else if k == 8 {
        assert(is_legible(palette(8)));
    } else if k == 9 {
        assert(is_legible(palette(9)));
    } else if k == 10 {
        assert(is_legible(palette(10)));
    } else if k == 11 {
        assert(is_legible(palette(11)));
    } else if k == 12 {
        assert(is_legible(palette(12)));
    } else {
        assert(is_legible(palette(13)));
    }
}

/// The light themes write dark on light, and the dark ones light on dark: red,
/// green and blue are all stronger on the light side.
pub proof fn a_light_theme_is_light(k: int)
    requires
        0 < k < THEME_COUNT,
    ensures
        ({
            let light = k == CATPPUCCIN_LATTE || k == ROSE_PINE_DAWN || k == GRUVBOX_LIGHT;
            let over = |a: u32, b: u32|
                a / 0x10000 > b / 0x10000 && a / 0x100 % 0x100 > b / 0x100 % 0x100 && a % 0x100 > b
                    % 0x100;
            &&& light ==> over(palette(k)[0], palette(k)[1])
            &&& !light ==> over(palette(k)[1], palette(k)[0])
        }),
{
}

/// No two of the named themes have the same background.
#[verifier::spinoff_prover]
#[verifier::rlimit(60)]
pub proof fn named_themes_look_different(j: int, k: int)
    requires
        0 < j < k < THEME_COUNT,
    ensures
        palette(j)[0] != palette(k)[0],
{
}

} // verus!
