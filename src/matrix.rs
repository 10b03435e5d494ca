//! The state of the 25 LEDs, row by row from the upper-left corner.
use vstd::prelude::*;
use crate::glyph::{glyph_of, has_glyph, lookup};
use crate::error::DisplayError;

verus! {

/// The number of LEDs in the matrix.
pub const LED_COUNT: usize = 25;

/// Whether the LED at `index` is lit when `glyph` is shown: bit 24 of the
/// bitmap drives LED 0 (upper left), bit 0 drives LED 24 (lower right).
pub open spec fn glyph_bit(glyph: u32, index: int) -> bool {
    (glyph >> ((24 - index) as u32)) & 1u32 == 1u32
}

/// The LED states that show `glyph`.
pub open spec fn frame_of(glyph: u32) -> Seq<bool> {
    Seq::new(25, |i: int| glyph_bit(glyph, i))
}

/// All 25 LEDs off.
pub open spec fn blank_frame() -> Seq<bool> {
    Seq::new(25, |i: int| false)
}

/// The LED states shown for a byte of text: its glyph, or all off where it
/// has none.
pub open spec fn char_frame(c: u8) -> Seq<bool> {
    match glyph_of(c) {
        Some(g) => frame_of(g),
        None => blank_frame(),
    }
}

/// The on/off state of each LED of the matrix.
pub struct LedMatrix {
    leds: Vec<bool>,
}

impl View for LedMatrix {
    type V = Seq<bool>;

    closed spec fn view(&self) -> Seq<bool> {
        self.leds@
    }
}

impl LedMatrix {
    /// The matrix holds exactly one state per LED.
    pub closed spec fn wf(&self) -> bool {
        self.leds@.len() == 25
    }

    /// A matrix with every LED off.
    pub fn new() -> (r: LedMatrix)
        ensures
            r.wf(),
            r@ == blank_frame(),
    {
        let mut leds: Vec<bool> = Vec::new();
        let mut i: usize = 0;
        while i < LED_COUNT
            invariant
                i <= 25,
                leds@ == Seq::new(i as nat, |j: int| false),
            decreases 25 - i,
        {
            leds.push(false);
            i = i + 1;
        }
        assert(leds@ =~= blank_frame());
        LedMatrix { leds }
    }

    /// Whether the LED at `index` is on.
    pub fn is_on(&self, index: usize) -> (r: bool)
        requires
            self.wf(),
            index < 25,
        ensures
            r == self@[index as int],
    {
        self.leds[index]
    }

    /// The state of every LED, from the upper-left one to the lower-right one.
    pub fn states(&self) -> (r: Vec<bool>)
        requires
            self.wf(),
        ensures
            r@ == self@,
    {
        self.leds.clone()
    }

    /// Sets each LED on or off according to its bit of `glyph`.
    pub fn render(&mut self, glyph: u32)
        requires
            old(self).wf(),
        ensures
            final(self).wf(),
            final(self)@ == frame_of(glyph),
    {
        let mut index: usize = 0;
        while index < LED_COUNT
            invariant
                index <= 25,
                self.leds@.len() == 25,
                forall|j: int| 0 <= j < index ==> self.leds@[j] == glyph_bit(glyph, j),
            decreases 25 - index,
        {
            let on = (glyph >> (24 - index as u32)) & 1 == 1;
            self.leds.set(index, on);
            index = index + 1;
        }
        assert(self.leds@ =~= frame_of(glyph));
    }

    /// Turns every LED off.
    pub fn render_blank(&mut self)
        requires
            old(self).wf(),
        ensures
            final(self).wf(),
            final(self)@ == blank_frame(),
    {
        let mut index: usize = 0;
        while index < LED_COUNT
            invariant
                index <= 25,
                self.leds@.len() == 25,
                forall|j: int| 0 <= j < index ==> !self.leds@[j],
            decreases 25 - index,
        {
            self.leds.set(index, false);
            index = index + 1;
        }
        assert(self.leds@ =~= blank_frame());
    }

    /// Shows the glyph of a byte of text. A byte without a glyph turns every
    /// LED off and is reported as an invalid character.
    pub fn show_char(&mut self, c: u8) -> (r: Result<(), DisplayError>)
        requires
            old(self).wf(),
        ensures
            final(self).wf(),
            final(self)@ == char_frame(c),
            r == (if has_glyph(c) { Ok::<(), DisplayError>(()) } else { Err(DisplayError::InvalidCharacter) }),
    {
        match lookup(c) {
            Some(glyph) => {
                self.render(glyph);
                Ok(())
            },
            None => {
                self.render_blank();
                Err(DisplayError::InvalidCharacter)
            },
        }
    }
}

} // verus!
