use vstd::prelude::*;

verus! {

/// The colours a group can be set to.
#[allow(non_camel_case_types, dead_code)]
#[derive(Clone, Copy, Debug, PartialEq, Eq)]
pub enum Color {
    BLUE,
    CYAN,
    GREEN,
    RED,
}

impl Color {
    /// The (hue, saturation) pair the Hue API uses for this colour.
    pub open spec fn spec_value(self) -> (u16, u8) {
        match self {
            Color::BLUE => (46920u16, 254u8),
            Color::CYAN => (32767u16, 254u8),
            Color::GREEN => (25500u16, 254u8),
            Color::RED => (0u16, 254u8),
        }
    }

    /// Returns the (hue, saturation) pair the Hue API uses for this colour.
    pub fn value(&self) -> (r: (u16, u8))
        ensures
            r == self.spec_value(),
    {
        match *self {
            Color::BLUE => (46920, 254),
            Color::CYAN => (32767, 254),
            Color::GREEN => (25500, 254),
            Color::RED => (0, 254),
        }
    }
}

/// The colour a command-line name denotes: `blue`, `cyan`, `green` or
/// `red`; no other name denotes one.
pub open spec fn color_named(name: Seq<char>) -> Option<Color> {
    if name == "blue"@ {
        Some(Color::BLUE)
    } else if name == "cyan"@ {
        Some(Color::CYAN)
    } else if name == "green"@ {
        Some(Color::GREEN)
    } else if name == "red"@ {
        Some(Color::RED)
    } else {
        None
    }
}

impl Color {
    /// The colour named `name` on the command line, if it names one.
    pub fn from_name(name: &str) -> (r: Option<Color>)
        ensures
            r == color_named(name@),
    {
        let n = String::from_str(name);
        if n == String::from_str("blue") {
            Some(Color::BLUE)
        } else if n == String::from_str("cyan") {
            Some(Color::CYAN)
        } else if n == String::from_str("green") {
            Some(Color::GREEN)
        } else if n == String::from_str("red") {
            Some(Color::RED)
        } else {
            None
        }
    }
}

/// Every colour is fully saturated: its saturation is 254, the maximum
/// that the Hue API accepts.
pub proof fn lemma_colors_fully_saturated(c: Color)
    ensures
        c.spec_value().1 == 254,
{
}

} // verus!
