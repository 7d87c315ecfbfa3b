//! The colours of the program.

use vstd::prelude::*;

verus! {

/// A colour of the terminal.
#[derive(Clone, Copy, Debug, PartialEq, Eq, Structural)]
pub enum Color {
    Black,
    Red,
    Green,
    Yellow,
    Blue,
    Magenta,
    Cyan,
    White,
    BrightBlack,
    BrightRed,
    BrightGreen,
    BrightYellow,
    BrightBlue,
    BrightMagenta,
    BrightCyan,
    BrightWhite,
    TrueColor { r: u8, g: u8, b: u8 },
}

/// The colours that one look of the program uses.
pub struct Theme {
    pub primary: Color,
    pub secondary: Color,
    pub accent: Color,
    pub error: Color,
    pub success: Color,
}

impl Theme {
    /// The look that holds where no other is chosen.
    pub open spec fn standard() -> Theme {
        Theme {
            primary: Color::Cyan,
            secondary: Color::Yellow,
            accent: Color::Green,
            error: Color::Red,
            success: Color::Green,
        }
    }
}

impl Default for Theme {
    fn default() -> (theme: Self)
        ensures
            theme == Theme::standard(),
    {
        Theme {
            primary: Color::Cyan,
            secondary: Color::Yellow,
            accent: Color::Green,
            error: Color::Red,
            success: Color::Green,
        }
    }
}

/// The looks that the program knows.
pub struct Themes;

impl Themes {
    /// The look of the program itself: the standard one.
    pub fn pokemon_theme() -> (theme: Theme)
        ensures
            theme == Theme::standard(),
    {
        Theme::default()
    }

    /// A look in the colours of old terminals.
    pub fn classic() -> (theme: Theme)
        ensures
            theme == (Theme {
                primary: Color::Blue,
                secondary: Color::White,
                accent: Color::Yellow,
                error: Color::Red,
                success: Color::Green,
            }),
    {
        Theme {
            primary: Color::Blue,
            secondary: Color::White,
            accent: Color::Yellow,
            error: Color::Red,
            success: Color::Green,
        }
    }
}

} // verus!
