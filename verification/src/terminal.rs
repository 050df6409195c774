use pastel::ansi::AnsiColor;
use vstd::prelude::*;

verus! {

/// How many colours the terminal can show.
#[derive(Debug, Clone, Copy, PartialEq, Eq, Structural)]
pub enum ColorDepth {
    /// A palette of 256 colours, each named by one byte.
    Palette8,
    /// Eight bits each of red, green and blue.
    Rgb888,
}

/// A colour in the form that a terminal of some depth takes.
#[derive(Debug, Clone, Copy, PartialEq, Eq, Structural)]
pub enum TermColor {
    /// A code of the 256-colour palette.
    Indexed(u8),
    /// Red, green and blue.
    Rgb(u8, u8, u8),
}

/// The colours of a run of text. A colour that is not set is left to the
/// terminal.
#[derive(Debug, Clone, Copy, PartialEq, Eq, Structural)]
pub struct Style {
    pub bg: Option<TermColor>,
    pub fg: Option<TermColor>,
}

impl Style {
    /// The style that sets no colour.
    pub fn default() -> (style: Self)
        ensures
            style == (Style { bg: None, fg: None }),
    {
        Style { bg: None, fg: None }
    }

    /// This style with the background `color`.
    pub fn bg(self, color: TermColor) -> (style: Self)
        ensures
            style == (Style { bg: Some(color), fg: self.fg }),
    {
        Style { bg: Some(color), fg: self.fg }
    }

    /// This style with the foreground `color`.
    pub fn fg(self, color: TermColor) -> (style: Self)
        ensures
            style == (Style { bg: self.bg, fg: Some(color) }),
    {
        Style { bg: self.bg, fg: Some(color) }
    }
}

/// The depth that a value of the `COLORTERM` variable announces: full
/// colour for `truecolor`, the palette for anything else.
pub fn query_depth(colorterm: &str) -> (depth: ColorDepth)
    ensures
        depth == if colorterm@ == "truecolor"@ {
            ColorDepth::Rgb888
        } else {
            ColorDepth::Palette8
        },
{
    if colorterm.to_owned() == "truecolor".to_owned() {
        ColorDepth::Rgb888
    } else {
        ColorDepth::Palette8
    }
}

/// The palette code that comes closest to a colour.
///
/// Trusted: the body calls pastel's `Color::from_rgb` and `to_ansi_8bit`.
/// The latter picks, by a perceptual distance computed in floating point,
/// among the codes from 16 up to 254; that range is all that is stated.
#[verifier::external_body]
fn nearest_ansi_8bit(r: u8, g: u8, b: u8) -> (code: u8)
    ensures
        16 <= code <= 254,
{
    pastel::Color::from_rgb(r, g, b).to_ansi_8bit()
}

/// The colour `(r, g, b)` for a terminal of the given depth: itself where
/// the terminal shows full colour, else a code of the palette outside the
/// sixteen colours that terminals restyle.
pub fn color(depth: ColorDepth, r: u8, g: u8, b: u8) -> (color: TermColor)
    ensures
        depth == ColorDepth::Rgb888 ==> color == TermColor::Rgb(r, g, b),
        depth == ColorDepth::Palette8 ==> (color matches TermColor::Indexed(code) && 16 <= code
            <= 254),
{
    match depth {
        ColorDepth::Palette8 => TermColor::Indexed(nearest_ansi_8bit(r, g, b)),
        ColorDepth::Rgb888 => TermColor::Rgb(r, g, b),
    }
}

} // verus!
