use vstd::prelude::*;

verus! {

/// The colour themes of the launcher.
#[derive(Clone, Copy, PartialEq, Eq, Structural, Debug)]
pub enum Theme {
    Cyberpunk,
    MinimalLight,
    SakuraPink,
    OceanBlue,
    Midnight,
    ForestGreen,
}

/// An opaque colour given by its red, green and blue components.
#[derive(Clone, Copy, PartialEq, Eq, Structural, Debug)]
pub struct Rgb {
    pub r: u8,
    pub g: u8,
    pub b: u8,
}

pub open spec fn rgb(r: u8, g: u8, b: u8) -> Rgb {
    Rgb { r, g, b }
}

/// How a theme sets up the widgets: a dark or light base and the colours
/// it overrides. A field that is `None` keeps the base's colour.
#[derive(Clone, Copy, PartialEq, Eq, Structural, Debug)]
pub struct ThemeVisuals {
    pub dark: bool,
    pub panel_fill: Rgb,
    pub window_fill: Rgb,
    pub extreme_bg: Option<Rgb>,
    pub noninteractive_bg: Option<Rgb>,
    pub inactive_bg: Option<Rgb>,
    pub hovered_bg: Option<Rgb>,
    pub active_bg: Option<Rgb>,
    pub selection_bg: Rgb,
    pub text_color: Option<Rgb>,
}

pub open spec fn theme_name(theme: Theme) -> Seq<char> {
    match theme {
        Theme::Cyberpunk => "Cyberpunk"@,
        Theme::MinimalLight => "Minimal Light"@,
        Theme::SakuraPink => "Sakura Pink"@,
        Theme::OceanBlue => "Ocean Blue"@,
        Theme::Midnight => "Midnight"@,
        Theme::ForestGreen => "Forest Green"@,
    }
}

/// Every theme, in menu order.
pub open spec fn all_themes() -> Seq<Theme> {
    seq![
        Theme::Cyberpunk,
        Theme::MinimalLight,
        Theme::SakuraPink,
        Theme::OceanBlue,
        Theme::Midnight,
        Theme::ForestGreen,
    ]
}

pub open spec fn theme_accent(theme: Theme) -> Rgb {
    match theme {
        Theme::Cyberpunk => rgb(180, 50, 255),
        Theme::MinimalLight => rgb(0, 122, 255),
        Theme::SakuraPink => rgb(255, 105, 180),
        Theme::OceanBlue => rgb(0, 180, 255),
        Theme::Midnight => rgb(150, 150, 170),
        Theme::ForestGreen => rgb(50, 200, 100),
    }
}

pub open spec fn theme_success(theme: Theme) -> Rgb {
    match theme {
        Theme::Cyberpunk => rgb(0, 200, 100),
        Theme::MinimalLight => rgb(34, 197, 94),
        Theme::SakuraPink => rgb(50, 200, 100),
        Theme::OceanBlue => rgb(0, 255, 150),
        Theme::Midnight => rgb(100, 220, 120),
        Theme::ForestGreen => rgb(100, 255, 150),
    }
}

/// The colour used for errors, the same in every theme.
pub open spec fn error_rgb() -> Rgb {
    rgb(255, 80, 80)
}

pub open spec fn theme_visuals(theme: Theme) -> ThemeVisuals {
    match theme {
        Theme::Cyberpunk => ThemeVisuals {
            dark: true,
            panel_fill: rgb(10, 10, 20),
            window_fill: rgb(15, 15, 30),
            extreme_bg: Some(rgb(5, 5, 15)),
            noninteractive_bg: Some(rgb(20, 20, 40)),
            inactive_bg: Some(rgb(30, 30, 60)),
            hovered_bg: Some(rgb(50, 50, 100)),
            active_bg: Some(rgb(70, 70, 140)),
            selection_bg: rgb(180, 50, 255),
            text_color: Some(rgb(220, 220, 240)),
        },
        Theme::MinimalLight => ThemeVisuals {
            dark: false,
            panel_fill: rgb(250, 250, 252),
            window_fill: rgb(255, 255, 255),
            extreme_bg: Some(rgb(245, 245, 248)),
            noninteractive_bg: None,
            inactive_bg: None,
            hovered_bg: None,
            active_bg: None,
            selection_bg: rgb(0, 122, 255),
            text_color: None,
        },
        Theme::SakuraPink => ThemeVisuals {
            dark: false,
            panel_fill: rgb(255, 245, 250),
            window_fill: rgb(255, 250, 253),
            extreme_bg: None,
            noninteractive_bg: None,
            inactive_bg: None,
            hovered_bg: None,
            active_bg: None,
            selection_bg: rgb(255, 105, 180),
            text_color: None,
        },
        Theme::OceanBlue => ThemeVisuals {
            dark: true,
            panel_fill: rgb(15, 25, 40),
            window_fill: rgb(20, 35, 55),
            extreme_bg: None,
            noninteractive_bg: None,
            inactive_bg: None,
            hovered_bg: None,
            active_bg: None,
            selection_bg: rgb(0, 180, 255),
            text_color: None,
        },
        Theme::Midnight => ThemeVisuals {
            dark: true,
            panel_fill: rgb(5, 5, 8),
            window_fill: rgb(8, 8, 12),
            extreme_bg: None,
            noninteractive_bg: None,
            inactive_bg: None,
            hovered_bg: None,
            active_bg: None,
            selection_bg: rgb(100, 100, 120),
            text_color: None,
        },
        Theme::ForestGreen => ThemeVisuals {
            dark: true,
            panel_fill: rgb(12, 25, 18),
            window_fill: rgb(18, 35, 25),
            extreme_bg: None,
            noninteractive_bg: None,
            inactive_bg: None,
            hovered_bg: None,
            active_bg: None,
            selection_bg: rgb(50, 200, 100),
            text_color: None,
        },
    }
}

impl Default for Theme {
    fn default() -> (r: Self)
        ensures
            r == Theme::Cyberpunk,
    {
        Theme::Cyberpunk
    }
}

impl Theme {
    /// The theme's name as shown in the theme menu.
    pub fn name(&self) -> (r: &'static str)
        ensures
            r@ == theme_name(*self),
    {
        match self {
            Theme::Cyberpunk => "Cyberpunk",
            Theme::MinimalLight => "Minimal Light",
            Theme::SakuraPink => "Sakura Pink",
            Theme::OceanBlue => "Ocean Blue",
            Theme::Midnight => "Midnight",
            Theme::ForestGreen => "Forest Green",
        }
    }

    /// All themes, in menu order.
    pub fn all() -> (r: [Theme; 6])
        ensures
            r@ == all_themes(),
    {
        [
            Theme::Cyberpunk,
            Theme::MinimalLight,
            Theme::SakuraPink,
            Theme::OceanBlue,
            Theme::Midnight,
            Theme::ForestGreen,
        ]
    }

    /// The base style and the colours the theme sets on the widgets.
    pub fn visuals(&self) -> (r: ThemeVisuals)
        ensures
            r == theme_visuals(*self),
    {
        match self {
            Theme::Cyberpunk => ThemeVisuals {
                dark: true,
                panel_fill: Rgb { r: 10, g: 10, b: 20 },
                window_fill: Rgb { r: 15, g: 15, b: 30 },
                extreme_bg: Some(Rgb { r: 5, g: 5, b: 15 }),
                noninteractive_bg: Some(Rgb { r: 20, g: 20, b: 40 }),
                inactive_bg: Some(Rgb { r: 30, g: 30, b: 60 }),
                hovered_bg: Some(Rgb { r: 50, g: 50, b: 100 }),
                active_bg: Some(Rgb { r: 70, g: 70, b: 140 }),
                selection_bg: Rgb { r: 180, g: 50, b: 255 },
                text_color: Some(Rgb { r: 220, g: 220, b: 240 }),
            },
            Theme::MinimalLight => ThemeVisuals {
                dark: false,
                panel_fill: Rgb { r: 250, g: 250, b: 252 },
                window_fill: Rgb { r: 255, g: 255, b: 255 },
                extreme_bg: Some(Rgb { r: 245, g: 245, b: 248 }),
                noninteractive_bg: None,
                inactive_bg: None,
                hovered_bg: None,
                active_bg: None,
                selection_bg: Rgb { r: 0, g: 122, b: 255 },
                text_color: None,
            },
            Theme::SakuraPink => ThemeVisuals {
                dark: false,
                panel_fill: Rgb { r: 255, g: 245, b: 250 },
                window_fill: Rgb { r: 255, g: 250, b: 253 },
                extreme_bg: None,
                noninteractive_bg: None,
                inactive_bg: None,
                hovered_bg: None,
                active_bg: None,
                selection_bg: Rgb { r: 255, g: 105, b: 180 },
                text_color: None,
            },
            Theme::OceanBlue => ThemeVisuals {
                dark: true,
                panel_fill: Rgb { r: 15, g: 25, b: 40 },
                window_fill: Rgb { r: 20, g: 35, b: 55 },
                extreme_bg: None,
                noninteractive_bg: None,
                inactive_bg: None,
                hovered_bg: None,
                active_bg: None,
                selection_bg: Rgb { r: 0, g: 180, b: 255 },
                text_color: None,
            },
            Theme::Midnight => ThemeVisuals {
                dark: true,
                panel_fill: Rgb { r: 5, g: 5, b: 8 },
                window_fill: Rgb { r: 8, g: 8, b: 12 },
                extreme_bg: None,
                noninteractive_bg: None,
                inactive_bg: None,
                hovered_bg: None,
                active_bg: None,
                selection_bg: Rgb { r: 100, g: 100, b: 120 },
                text_color: None,
            },
            Theme::ForestGreen => ThemeVisuals {
                dark: true,
                panel_fill: Rgb { r: 12, g: 25, b: 18 },
                window_fill: Rgb { r: 18, g: 35, b: 25 },
                extreme_bg: None,
                noninteractive_bg: None,
                inactive_bg: None,
                hovered_bg: None,
                active_bg: None,
                selection_bg: Rgb { r: 50, g: 200, b: 100 },
                text_color: None,
            },
        }
    }

    /// The theme's accent colour (headings, title, apply button).
    pub fn accent_color(&self) -> (r: Rgb)
        ensures
            r == theme_accent(*self),
    {
        match self {
            Theme::Cyberpunk => Rgb { r: 180, g: 50, b: 255 },
            Theme::MinimalLight => Rgb { r: 0, g: 122, b: 255 },
            Theme::SakuraPink => Rgb { r: 255, g: 105, b: 180 },
            Theme::OceanBlue => Rgb { r: 0, g: 180, b: 255 },
            Theme::Midnight => Rgb { r: 150, g: 150, b: 170 },
            Theme::ForestGreen => Rgb { r: 50, g: 200, b: 100 },
        }
    }

    /// The colour that marks success (running server, confirmed values).
    pub fn success_color(&self) -> (r: Rgb)
        ensures
            r == theme_success(*self),
    {
        match self {
            Theme::Cyberpunk => Rgb { r: 0, g: 200, b: 100 },
            Theme::MinimalLight => Rgb { r: 34, g: 197, b: 94 },
            Theme::SakuraPink => Rgb { r: 50, g: 200, b: 100 },
            Theme::OceanBlue => Rgb { r: 0, g: 255, b: 150 },
            Theme::Midnight => Rgb { r: 100, g: 220, b: 120 },
            Theme::ForestGreen => Rgb { r: 100, g: 255, b: 150 },
        }
    }

    /// The colour that marks errors; every theme uses the same one.
    pub fn error_color(&self) -> (r: Rgb)
        ensures
            r == error_rgb(),
    {
        Rgb { r: 255, g: 80, b: 80 }
    }
}

/// Every theme is listed exactly once by `Theme::all`.
pub proof fn lemma_all_themes_listed_once(theme: Theme)
    ensures
        all_themes().contains(theme),
        all_themes().filter(|x: Theme| x == theme).len() == 1,
{
    assert(all_themes().contains(theme)) by {
        match theme {
            Theme::Cyberpunk => assert(all_themes()[0] == theme),
            Theme::MinimalLight => assert(all_themes()[1] == theme),
            Theme::SakuraPink => assert(all_themes()[2] == theme),
            Theme::OceanBlue => assert(all_themes()[3] == theme),
            Theme::Midnight => assert(all_themes()[4] == theme),
            Theme::ForestGreen => assert(all_themes()[5] == theme),
        }
    }
    reveal_with_fuel(Seq::filter, 7);
}

/// A theme's accent colour is the colour it gives to selections.
pub proof fn lemma_accent_is_selection_colour(theme: Theme)
    requires
        theme != Theme::Midnight,
    ensures
        theme_accent(theme) == theme_visuals(theme).selection_bg,
{
}

/// Whether a colour is dark: each of its components is below 128.
pub open spec fn is_dark_colour(c: Rgb) -> bool {
    c.r < 128 && c.g < 128 && c.b < 128
}

/// Whether a colour is light: each of its components is at least 128.
pub open spec fn is_light_colour(c: Rgb) -> bool {
    c.r >= 128 && c.g >= 128 && c.b >= 128
}

/// A theme is built on the dark base exactly when its panels and windows
/// are dark; the other themes have light panels and windows; and a text
/// colour that a dark theme sets is light.
pub proof fn lemma_dark_base_matches_fills(theme: Theme)
    ensures
        theme_visuals(theme).dark == is_dark_colour(theme_visuals(theme).panel_fill),
        theme_visuals(theme).dark == is_dark_colour(theme_visuals(theme).window_fill),
        !theme_visuals(theme).dark ==> is_light_colour(theme_visuals(theme).panel_fill)
            && is_light_colour(theme_visuals(theme).window_fill),
        theme_visuals(theme).dark ==> (theme_visuals(theme).text_color matches Some(t)
            ==> is_light_colour(t)),
{
}

} // verus!
