//! The colours of the two themes, each written as `0xrrggbb`.

use vstd::prelude::*;

verus! {

pub const PURPLE_DARK: u32 = 0x420c5d;

pub const PURPLE: u32 = 0x951ad1;

pub const SUCCESS: u32 = 0x18a35a;

pub const ERROR: u32 = 0xc82d3c;

pub const GOLD: u32 = 0xd6a828;

pub const LIGHT_PURPLE_SOFT: u32 = 0xf2e4ff;

pub const LIGHT_BG: u32 = 0xfbfafd;

pub const LIGHT_SURFACE: u32 = 0xffffff;

pub const LIGHT_BORDER: u32 = 0xe8e2f0;

pub const LIGHT_TEXT_PRIMARY: u32 = 0x1c1622;

pub const LIGHT_TEXT_SECONDARY: u32 = 0x6c6476;

pub const DARK_PURPLE_SOFT: u32 = 0x371450;

pub const DARK_BG: u32 = 0x121218;

pub const DARK_SURFACE: u32 = 0x1c1c24;

pub const DARK_BORDER: u32 = 0x323241;

pub const DARK_TEXT_PRIMARY: u32 = 0xebe6f5;

pub const DARK_TEXT_SECONDARY: u32 = 0xa09baa;

#[derive(Debug, Clone, Copy, PartialEq, Eq, Structural)]
pub enum Theme {
    Light,
    Dark,
}

/// The fills that a theme gives to widgets, where it gives any of its own.
#[derive(Debug, Clone, Copy, PartialEq, Eq, Structural)]
pub struct WidgetFills {
    pub noninteractive: u32,
    pub inactive: u32,
    pub hovered: u32,
    pub active: u32,
}

/// What a theme changes in the look of the whole window.
#[derive(Debug, Clone, Copy, PartialEq, Eq, Structural)]
pub struct Visuals {
    pub window_fill: u32,
    pub panel_fill: u32,
    pub selection_fill: u32,
    pub selection_stroke: u32,
    /// `None` leaves the fills of the widgets as they are.
    pub widgets: Option<WidgetFills>,
}

impl Theme {
    /// The colour of one role: the first in the light theme, the second in the
    /// dark one.
    pub open spec fn pick(self, light: u32, dark: u32) -> u32 {
        match self {
            Theme::Light => light,
            Theme::Dark => dark,
        }
    }

    fn choose_colour(self, light: u32, dark: u32) -> (r: u32)
        ensures
            r == self.pick(light, dark),
    {
        match self {
            Theme::Light => light,
            Theme::Dark => dark,
        }
    }

    /// The other theme.
    pub open spec fn other(self) -> Theme {
        match self {
            Theme::Light => Theme::Dark,
            Theme::Dark => Theme::Light,
        }
    }

    /// The other theme.
    pub fn toggled(self) -> (r: Theme)
        ensures
            r == self.other(),
    {
        match self {
            Theme::Light => Theme::Dark,
            Theme::Dark => Theme::Light,
        }
    }

    pub fn text_primary(self) -> (r: u32)
        ensures
            r == self.pick(LIGHT_TEXT_PRIMARY, DARK_TEXT_PRIMARY),
    {
        self.choose_colour(LIGHT_TEXT_PRIMARY, DARK_TEXT_PRIMARY)
    }

    pub fn text_secondary(self) -> (r: u32)
        ensures
            r == self.pick(LIGHT_TEXT_SECONDARY, DARK_TEXT_SECONDARY),
    {
        self.choose_colour(LIGHT_TEXT_SECONDARY, DARK_TEXT_SECONDARY)
    }

    pub fn bg(self) -> (r: u32)
        ensures
            r == self.pick(LIGHT_BG, DARK_BG),
    {
        self.choose_colour(LIGHT_BG, DARK_BG)
    }

    pub fn surface(self) -> (r: u32)
        ensures
            r == self.pick(LIGHT_SURFACE, DARK_SURFACE),
    {
        self.choose_colour(LIGHT_SURFACE, DARK_SURFACE)
    }

    pub fn border(self) -> (r: u32)
        ensures
            r == self.pick(LIGHT_BORDER, DARK_BORDER),
    {
        self.choose_colour(LIGHT_BORDER, DARK_BORDER)
    }

    pub fn purple_soft(self) -> (r: u32)
        ensures
            r == self.pick(LIGHT_PURPLE_SOFT, DARK_PURPLE_SOFT),
    {
        self.choose_colour(LIGHT_PURPLE_SOFT, DARK_PURPLE_SOFT)
    }

    /// What the theme changes in the look of the window. Selections are purple
    /// in both; only the dark theme has widget fills of its own.
    pub fn visuals(self) -> (r: Visuals)
        ensures
            r.window_fill == self.pick(LIGHT_BG, DARK_BG),
            r.panel_fill == self.pick(LIGHT_BG, DARK_BG),
            r.selection_fill == PURPLE,
            r.selection_stroke == PURPLE,
            r.widgets == (match self {
                Theme::Light => None,
                Theme::Dark => Some(
                    WidgetFills {
                        noninteractive: DARK_SURFACE,
                        inactive: DARK_SURFACE,
                        hovered: DARK_BORDER,
                        active: DARK_BORDER,
                    },
                ),
            }),
    {
        Visuals {
            window_fill: self.bg(),
            panel_fill: self.bg(),
            selection_fill: PURPLE,
            selection_stroke: PURPLE,
            widgets: match self {
                Theme::Light => None,
                Theme::Dark => Some(
                    WidgetFills {
                        noninteractive: DARK_SURFACE,
                        inactive: DARK_SURFACE,
                        hovered: DARK_BORDER,
                        active: DARK_BORDER,
                    },
                ),
            },
        }
    }
}

/// Switching the theme twice gives the first one back.
pub proof fn toggling_twice(theme: Theme)
    ensures
        theme.other().other() == theme,
        theme.other() != theme,
{
}

/// Each theme takes its own of two colours.
pub proof fn themes_take_their_own_colour(light: u32, dark: u32)
    ensures
        Theme::Light.pick(light, dark) == light,
        Theme::Dark.pick(light, dark) == dark,
{
}

} // verus!
