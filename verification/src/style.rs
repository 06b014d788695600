//! Colours and shadows that the kit's surfaces share.
//!
//! Colours are HSLA with every channel in thousandths of its full range, and
//! lengths are in tenths of a pixel: the values these surfaces spend are exact
//! in those units, and the renderer divides them back out.

use vstd::prelude::*;

verus! {

/// The full range of a colour channel.
pub const CHANNEL_MAX: u16 = 1000;

/// Ink every layer of a surface's shadow carries: black at a tenth of full
/// opacity.
pub const SURFACE_SHADOW_INK: u16 = 100;

/// Opacity of the frosted rim in a dark theme, where a faint white band already
/// stands out against the surface.
pub const FROSTED_RIM_ALPHA_DARK: u16 = 160;

/// Opacity of the frosted rim in a light theme, where the surface is already
/// bright and the band must be nearly white to read as a band.
pub const FROSTED_RIM_ALPHA_LIGHT: u16 = 800;

/// A colour: hue, saturation, lightness and opacity, each in thousandths of its
/// full range.
#[derive(Clone, Copy, Debug, PartialEq, Eq, Structural)]
pub struct Hsla {
    pub h: u16,
    pub s: u16,
    pub l: u16,
    pub a: u16,
}

impl Hsla {
    /// Every channel lies in its range.
    pub open spec fn wf(self) -> bool {
        self.h <= CHANNEL_MAX && self.s <= CHANNEL_MAX && self.l <= CHANNEL_MAX && self.a
            <= CHANNEL_MAX
    }
}

/// The colour with the given channels.
pub fn hsla(h: u16, s: u16, l: u16, a: u16) -> (c: Hsla)
    requires
        h <= CHANNEL_MAX,
        s <= CHANNEL_MAX,
        l <= CHANNEL_MAX,
        a <= CHANNEL_MAX,
    ensures
        c == (Hsla { h, s, l, a }),
        c.wf(),
{
    Hsla { h, s, l, a }
}

/// One layer of a box shadow; lengths in tenths of a pixel.
#[derive(Clone, Copy, Debug, PartialEq, Eq, Structural)]
pub struct BoxShadow {
    pub color: Hsla,
    pub offset_x: i32,
    pub offset_y: i32,
    pub blur_radius: i32,
    pub spread_radius: i32,
}

/// Whether a theme is light or dark.
#[derive(Clone, Copy, Debug, PartialEq, Eq, Structural)]
pub enum ThemeMode {
    Light,
    Dark,
}

impl ThemeMode {
    /// Whether this is the dark mode.
    pub fn is_dark(self) -> (dark: bool)
        ensures
            dark == (self == ThemeMode::Dark),
    {
        match self {
            ThemeMode::Dark => true,
            ThemeMode::Light => false,
        }
    }
}

/// The colour of the frosted rim in a theme of the given mode.
pub open spec fn spec_frosted_rim(mode: ThemeMode) -> Hsla {
    Hsla {
        h: 0,
        s: 0,
        l: CHANNEL_MAX,
        a: if mode == ThemeMode::Dark {
            FROSTED_RIM_ALPHA_DARK
        } else {
            FROSTED_RIM_ALPHA_LIGHT
        },
    }
}

/// The colour of the glass rim around a frosted surface: a white band, whose
/// opacity depends on whether the theme is dark, so that it is brighter than the
/// surface in every theme.
pub fn frosted_rim(mode: ThemeMode) -> (c: Hsla)
    ensures
        c == spec_frosted_rim(mode),
        c.wf(),
{
    let alpha = if mode.is_dark() {
        FROSTED_RIM_ALPHA_DARK
    } else {
        FROSTED_RIM_ALPHA_LIGHT
    };
    hsla(0, 0, CHANNEL_MAX, alpha)
}

/// The layers of the shadow on a control raised out of the container it sits
/// in, such as the active pill of a segmented tab bar.
pub open spec fn spec_raised_shadow() -> Seq<BoxShadow> {
    let ink = Hsla { h: 0, s: 0, l: 0, a: SURFACE_SHADOW_INK };
    seq![
        BoxShadow { color: ink, offset_x: 0, offset_y: 10, blur_radius: 15, spread_radius: 0 },
        BoxShadow { color: ink, offset_x: 0, offset_y: 10, blur_radius: 10, spread_radius: -10i32 },
    ]
}

/// The shadow on a control raised out of the container it sits in, at full
/// ink: a tight falloff that reads as lift inside a clipping trough.
pub fn raised_shadow() -> (layers: Vec<BoxShadow>)
    ensures
        layers@ == spec_raised_shadow(),
{
    let ink = hsla(0, 0, 0, SURFACE_SHADOW_INK);
    let mut layers: Vec<BoxShadow> = Vec::new();
    layers.push(
        BoxShadow { color: ink, offset_x: 0, offset_y: 10, blur_radius: 15, spread_radius: 0 },
    );
    layers.push(
        BoxShadow { color: ink, offset_x: 0, offset_y: 10, blur_radius: 10, spread_radius: -10 },
    );
    layers
}

/// The frosted rim is pure white at full lightness in every theme, and fainter
/// in a dark theme than in a light one.
pub proof fn law_frosted_rim_is_white_band(mode: ThemeMode)
    ensures
        spec_frosted_rim(mode).l == CHANNEL_MAX,
        spec_frosted_rim(mode).s == 0,
        spec_frosted_rim(mode).wf(),
        spec_frosted_rim(ThemeMode::Dark).a < spec_frosted_rim(ThemeMode::Light).a,
{
}

/// Every layer of the raised shadow is black at the surface ink, and none is
/// offset sideways.
pub proof fn law_raised_shadow_is_black_surface_ink(i: int)
    requires
        0 <= i < spec_raised_shadow().len(),
    ensures
        spec_raised_shadow()[i].color == (Hsla { h: 0, s: 0, l: 0, a: SURFACE_SHADOW_INK }),
        spec_raised_shadow()[i].offset_x == 0,
{
}

} // verus!
