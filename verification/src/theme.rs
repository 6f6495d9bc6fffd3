//! The values that primitives fall back on where none was set.

use vstd::prelude::*;
use crate::primitive::Primitive;
use crate::value::{Color, ONE, ZERO};

verus! {

/// The default values of a session.
#[derive(Clone, Copy, Debug, PartialEq, Eq, Structural)]
pub struct Theme {
    /// The fill colour of a primitive that sets none.
    pub fill_color: Color,
    /// The stroke colour of a primitive that sets none.
    pub stroke_color: Color,
}

/// Opaque white.
pub open spec fn spec_white() -> Color {
    Color { red: ONE, green: ONE, blue: ONE, alpha: ONE }
}

/// Opaque black.
pub open spec fn spec_black() -> Color {
    Color { red: ZERO, green: ZERO, blue: ZERO, alpha: ONE }
}

/// The theme of a new session: white fill, black stroke.
pub open spec fn spec_default_theme() -> Theme {
    Theme { fill_color: spec_white(), stroke_color: spec_black() }
}

impl Default for Theme {
    fn default() -> (theme: Theme)
        ensures
            theme == spec_default_theme(),
    {
        Theme {
            fill_color: Color { red: ONE, green: ONE, blue: ONE, alpha: ONE },
            stroke_color: Color { red: ZERO, green: ZERO, blue: ZERO, alpha: ONE },
        }
    }
}

impl Theme {
    /// The colour that `primitive` is filled with: its own where it has
    /// one, the theme's where it has none.
    pub fn fill(&self, primitive: &Primitive) -> (color: Color)
        ensures
            color == (match primitive.spec_color() {
                Some(own) => own,
                None => self.fill_color,
            }),
    {
        match primitive.color() {
            Some(own) => own,
            None => self.fill_color,
        }
    }
}

} // verus!
