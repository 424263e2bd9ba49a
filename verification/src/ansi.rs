//! Colours and styles of terminal text, and the escape codes that switch them
//! on and off.

use vstd::prelude::*;

verus! {

/// The eight basic colours of a terminal.
#[derive(Clone, Copy, Debug, PartialEq, Eq, Structural)]
pub enum Color {
    Black,
    Red,
    Green,
    Yellow,
    Blue,
    Purple,
    Cyan,
    White,
}

/// How a piece of text is shown: in which colour, and whether in bold.
#[derive(Clone, Copy, Debug, PartialEq, Eq, Structural)]
pub struct Style {
    pub foreground: Color,
    pub is_bold: bool,
}

/// A piece of text together with its style.
#[derive(Clone, Debug, PartialEq, Eq)]
pub struct AnsiString {
    pub style: Style,
    pub text: String,
}

impl Color {
    /// The digit that selects this colour in an escape code.
    pub open spec fn digit(self) -> char {
        match self {
            Color::Black => '0',
            Color::Red => '1',
            Color::Green => '2',
            Color::Yellow => '3',
            Color::Blue => '4',
            Color::Purple => '5',
            Color::Cyan => '6',
            Color::White => '7',
        }
    }

    /// This colour, not bold.
    pub fn normal(self) -> (style: Style)
        ensures
            style == (Style { foreground: self, is_bold: false }),
    {
        Style { foreground: self, is_bold: false }
    }

    /// This colour, in bold.
    pub fn bold(self) -> (style: Style)
        ensures
            style == (Style { foreground: self, is_bold: true }),
    {
        Style { foreground: self, is_bold: true }
    }

    /// `text` in this colour, not bold.
    pub fn paint(self, text: &str) -> (painted: AnsiString)
        ensures
            painted.style == (Style { foreground: self, is_bold: false }),
            painted.text@ == text@,
    {
        self.normal().paint(text)
    }
}

impl Style {
    /// The escape code that switches this style on: `ESC [`, then `1;` if bold,
    /// then `3` and the colour's digit, then `m`.
    pub open spec fn prefix_codes(self) -> Seq<char> {
        if self.is_bold {
            seq!['\u{1b}', '[', '1', ';', '3', self.foreground.digit(), 'm']
        } else {
            seq!['\u{1b}', '[', '3', self.foreground.digit(), 'm']
        }
    }

    /// The escape code that switches this style off again: the reset code `ESC [ 0 m`.
    pub open spec fn suffix_codes(self) -> Seq<char> {
        seq!['\u{1b}', '[', '0', 'm']
    }

    /// `text` in this style.
    pub fn paint(self, text: &str) -> (painted: AnsiString)
        ensures
            painted.style == self,
            painted.text@ == text@,
    {
        AnsiString { style: self, text: text.to_owned() }
    }
}

/// Calls `ansi_term::Style::prefix` on the style that `ansi_term` has for
/// `style`, and collects what it displays.
///
/// Trusted: for a style with a foreground colour, `ansi_term` writes `ESC [`,
/// `1` and a semicolon if the style is bold, the colour's foreground code (`30`
/// to `37`, black to white) and `m`.
#[verifier::external_body]
pub(crate) fn ansi_prefix(style: Style) -> (codes: String)
    ensures
        codes@ == style.prefix_codes(),
{
    let foreground = match style.foreground {
        Color::Black => ansi_term::Colour::Black,
        Color::Red => ansi_term::Colour::Red,
        Color::Green => ansi_term::Colour::Green,
        Color::Yellow => ansi_term::Colour::Yellow,
        Color::Blue => ansi_term::Colour::Blue,
        Color::Purple => ansi_term::Colour::Purple,
        Color::Cyan => ansi_term::Colour::Cyan,
        Color::White => ansi_term::Colour::White,
    };
    let style = ansi_term::Style { is_bold: style.is_bold, ..foreground.normal() };
    style.prefix().to_string()
}

/// Calls `ansi_term::Style::suffix` on the style that `ansi_term` has for
/// `style`, and collects what it displays.
///
/// Trusted: for every style but the plain one, which has no foreground colour,
/// `ansi_term` writes its reset code, `ESC [ 0 m`.
#[verifier::external_body]
pub(crate) fn ansi_suffix(style: Style) -> (codes: String)
    ensures
        codes@ == style.suffix_codes(),
{
    let foreground = match style.foreground {
        Color::Black => ansi_term::Colour::Black,
        Color::Red => ansi_term::Colour::Red,
        Color::Green => ansi_term::Colour::Green,
        Color::Yellow => ansi_term::Colour::Yellow,
        Color::Blue => ansi_term::Colour::Blue,
        Color::Purple => ansi_term::Colour::Purple,
        Color::Cyan => ansi_term::Colour::Cyan,
        Color::White => ansi_term::Colour::White,
    };
    let style = ansi_term::Style { is_bold: style.is_bold, ..foreground.normal() };
    style.suffix().to_string()
}

} // verus!
