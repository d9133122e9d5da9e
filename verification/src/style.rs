//! The editor's style constants.
//!
//! The GUI toolkit renders from these values outside this library; the theme
//! choice and the dark container's colors and border geometry are fixed here.

use vstd::prelude::*;

verus! {

/// Which visual theme the editor uses. Only the dark theme exists.
#[allow(non_camel_case_types)]
#[derive(Clone, Copy, Debug, PartialEq, Eq, Structural)]
pub enum Theme {
    DARK,
}

impl Default for Theme {
    /// The editor defaults to the dark theme.
    fn default() -> (r: Theme)
        ensures
            r is DARK,
    {
        Theme::DARK
    }
}

/// A red-green-blue color, one byte per component.
#[derive(Clone, Copy, Debug, PartialEq, Eq, Structural)]
pub struct Rgb {
    pub red: u8,
    pub green: u8,
    pub blue: u8,
}

/// What the dark container style prescribes: its colors and border geometry.
#[derive(Clone, Copy, Debug, PartialEq, Eq, Structural)]
pub struct ContainerStyle {
    /// Color of text inside the container.
    pub text_color: Rgb,
    /// Fill color behind the container's content.
    pub background: Rgb,
    /// Color of the container's border.
    pub border_color: Rgb,
    /// Border line width in pixels.
    pub border_width: u32,
    /// Corner radius in pixels.
    pub border_radius: u32,
}

/// The dark theme's container: white text on a red fill with a darker red
/// border.
pub struct Container;

impl Container {
    /// The style this container draws with.
    pub fn style(&self) -> (r: ContainerStyle)
        ensures
            r.text_color == (Rgb { red: 255, green: 255, blue: 255 }),
            r.background == (Rgb { red: 249, green: 40, blue: 20 }),
            r.border_color == (Rgb { red: 229, green: 20, blue: 0 }),
            r.border_width == 5,
            r.border_radius == 8,
    {
        ContainerStyle {
            text_color: Rgb { red: 255, green: 255, blue: 255 },
            background: Rgb { red: 249, green: 40, blue: 20 },
            border_color: Rgb { red: 229, green: 20, blue: 0 },
            border_width: 5,
            border_radius: 8,
        }
    }
}

} // verus!
