use vstd::prelude::*;

use crate::color::Rgb8;

verus! {

/// Number of ANSI color slots a palette carries besides its background
/// and foreground colors.
pub const ANSI_SLOTS: usize = 16;

/// The mathematical value of a palette: a background color, a foreground
/// color and a sequence of ANSI slot colors.
#[verifier::ext_equal]
pub struct PaletteView {
    pub background: Rgb8,
    pub foreground: Rgb8,
    pub slots: Seq<Rgb8>,
}

impl PaletteView {
    /// A palette is well formed when it carries exactly the fixed number
    /// of ANSI slots.
    pub open spec fn wf(self) -> bool {
        self.slots.len() == ANSI_SLOTS
    }
}

/// An ordered, fixed-arity collection of named colors extracted from a
/// wallpaper: background, foreground and sixteen ANSI slots.
#[derive(Clone, Debug, PartialEq)]
pub struct Palette {
    pub background: Rgb8,
    pub foreground: Rgb8,
    pub slots: Vec<Rgb8>,
}

impl View for Palette {
    type V = PaletteView;

    open spec fn view(&self) -> PaletteView {
        PaletteView {
            background: self.background,
            foreground: self.foreground,
            slots: self.slots@,
        }
    }
}

impl Palette {
    /// A palette is well formed when it carries exactly the fixed number
    /// of ANSI slots.
    pub open spec fn wf(self) -> bool {
        self@.wf()
    }

    /// The color held in one ANSI slot.
    pub fn slot(&self, i: usize) -> (r: Rgb8)
        requires
            self.wf(),
            i < ANSI_SLOTS,
        ensures
            r == self@.slots[i as int],
    {
        self.slots[i]
    }
}

} // verus!
