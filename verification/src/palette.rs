//! The fixed palette of named colors that the primary color can be
//! blended with at the press of a button.

use crate::color::Color;
use vstd::prelude::*;

verus! {

/// A color of the palette. Each has channels of 0 or 255 only.
#[derive(Clone, Copy, Debug, PartialEq, Eq, Structural, Hash)]
pub enum NamedColor {
    Black,
    Red,
    Green,
    Blue,
    White,
    Cyan,
    Yellow,
    Magenta,
}

/// The palette in the order of its buttons.
pub open spec fn palette_colors() -> Seq<NamedColor> {
    seq![
        NamedColor::Black,
        NamedColor::Red,
        NamedColor::Green,
        NamedColor::Blue,
        NamedColor::White,
        NamedColor::Cyan,
        NamedColor::Yellow,
        NamedColor::Magenta,
    ]
}

impl NamedColor {
    /// The channels of the named color.
    pub open spec fn rgb(self) -> Color {
        match self {
            NamedColor::Black => Color { red: 0, green: 0, blue: 0 },
            NamedColor::Red => Color { red: 255, green: 0, blue: 0 },
            NamedColor::Green => Color { red: 0, green: 255, blue: 0 },
            NamedColor::Blue => Color { red: 0, green: 0, blue: 255 },
            NamedColor::White => Color { red: 255, green: 255, blue: 255 },
            NamedColor::Cyan => Color { red: 0, green: 255, blue: 255 },
            NamedColor::Yellow => Color { red: 255, green: 255, blue: 0 },
            NamedColor::Magenta => Color { red: 255, green: 0, blue: 255 },
        }
    }

    /// The name of the color in lower case, by which its button is found.
    pub open spec fn name_text(self) -> Seq<char> {
        match self {
            NamedColor::Black => "black"@,
            NamedColor::Red => "red"@,
            NamedColor::Green => "green"@,
            NamedColor::Blue => "blue"@,
            NamedColor::White => "white"@,
            NamedColor::Cyan => "cyan"@,
            NamedColor::Yellow => "yellow"@,
            NamedColor::Magenta => "magenta"@,
        }
    }

    /// The color that the name stands for.
    pub fn color(self) -> (color: Color)
        ensures
            color == self.rgb(),
    {
        match self {
            NamedColor::Black => Color { red: 0, green: 0, blue: 0 },
            NamedColor::Red => Color { red: 255, green: 0, blue: 0 },
            NamedColor::Green => Color { red: 0, green: 255, blue: 0 },
            NamedColor::Blue => Color { red: 0, green: 0, blue: 255 },
            NamedColor::White => Color { red: 255, green: 255, blue: 255 },
            NamedColor::Cyan => Color { red: 0, green: 255, blue: 255 },
            NamedColor::Yellow => Color { red: 255, green: 255, blue: 0 },
            NamedColor::Magenta => Color { red: 255, green: 0, blue: 255 },
        }
    }

    /// The name of the color.
    pub fn name(self) -> (name: &'static str)
        ensures
            name@ == self.name_text(),
    {
        match self {
            NamedColor::Black => "black",
            NamedColor::Red => "red",
            NamedColor::Green => "green",
            NamedColor::Blue => "blue",
            NamedColor::White => "white",
            NamedColor::Cyan => "cyan",
            NamedColor::Yellow => "yellow",
            NamedColor::Magenta => "magenta",
        }
    }
}

/// The eight colors of the palette in the order of their buttons.
pub fn palette() -> (colors: Vec<NamedColor>)
    ensures
        colors@ == palette_colors(),
{
    let mut colors: Vec<NamedColor> = Vec::new();
    colors.push(NamedColor::Black);
    colors.push(NamedColor::Red);
    colors.push(NamedColor::Green);
    colors.push(NamedColor::Blue);
    colors.push(NamedColor::White);
    colors.push(NamedColor::Cyan);
    colors.push(NamedColor::Yellow);
    colors.push(NamedColor::Magenta);
    colors
}

} // verus!
