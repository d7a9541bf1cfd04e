//! The colors of the playground's One theme, as `0xRRGGBB` values.
use vstd::prelude::*;

verus! {

/// The named colors of a One palette, each an opaque `0xRRGGBB` color.
#[derive(Clone, Copy, Debug, PartialEq, Eq, Structural)]
pub struct OnePalette {
    pub base: u32,
    pub surface: u32,
    pub overlay: u32,
    pub muted: u32,
    pub subtle: u32,
    pub text: u32,
    pub love: u32,
    pub gold: u32,
    pub rose: u32,
    pub pine: u32,
    pub foam: u32,
    pub iris: u32,
    pub highlight_low: u32,
    pub highlight_med: u32,
    pub highlight_high: u32,
}

/// The default and dark One palettes.
pub struct OneThemes {
    pub default: OnePalette,
    pub dark: OnePalette,
}

/// The colors of the default palette.
pub open spec fn default_palette() -> OnePalette {
    OnePalette {
        base: 0x191724,
        surface: 0x1f1d2e,
        overlay: 0x26233a,
        muted: 0x6e6a86,
        subtle: 0x908caa,
        text: 0xe0def4,
        love: 0xeb6f92,
        gold: 0xf6c177,
        rose: 0xebbcba,
        pine: 0x31748f,
        foam: 0x9ccfd8,
        iris: 0xc4a7e7,
        highlight_low: 0x21202e,
        highlight_med: 0x403d52,
        highlight_high: 0x524f67,
    }
}

impl OnePalette {
    /// The default palette.
    pub fn default() -> (p: OnePalette)
        ensures
            p == default_palette(),
    {
        OnePalette {
            base: 0x191724,
            surface: 0x1f1d2e,
            overlay: 0x26233a,
            muted: 0x6e6a86,
            subtle: 0x908caa,
            text: 0xe0def4,
            love: 0xeb6f92,
            gold: 0xf6c177,
            rose: 0xebbcba,
            pine: 0x31748f,
            foam: 0x9ccfd8,
            iris: 0xc4a7e7,
            highlight_low: 0x21202e,
            highlight_med: 0x403d52,
            highlight_high: 0x524f67,
        }
    }

    /// The dark palette, which is the default one.
    pub fn dark() -> (p: OnePalette)
        ensures
            p == default_palette(),
    {
        Self::default()
    }
}

impl OneThemes {
    /// Both palettes.
    pub fn new() -> (t: OneThemes)
        ensures
            t.default == default_palette(),
            t.dark == default_palette(),
    {
        OneThemes { default: OnePalette::default(), dark: OnePalette::dark() }
    }
}

} // verus!
