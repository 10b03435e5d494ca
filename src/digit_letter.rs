//! A driver that shows one digit or letter at a time, on request.
use vstd::prelude::*;
use crate::error::DisplayError;
use crate::glyph::has_glyph;
use crate::matrix::{blank_frame, char_frame, LedMatrix};

verus! {

/// Shows the character that a client asks for on the LED matrix.
pub struct DigitLetterDisplay {
    matrix: LedMatrix,
}

impl View for DigitLetterDisplay {
    type V = Seq<bool>;

    /// The state of each LED.
    closed spec fn view(&self) -> Seq<bool> {
        self.matrix@
    }
}

impl DigitLetterDisplay {
    /// The matrix holds one state per LED.
    pub closed spec fn wf(&self) -> bool {
        self.matrix.wf()
    }

    /// A driver with every LED off.
    pub fn new() -> (r: DigitLetterDisplay)
        ensures
            r.wf(),
            r@ == blank_frame(),
    {
        DigitLetterDisplay { matrix: LedMatrix::new() }
    }

    /// Shows a character, ignoring the case of letters; a byte that is no
    /// digit or letter turns every LED off and is refused.
    fn display(&mut self, character: u8) -> (r: Result<(), DisplayError>)
        requires
            old(self).wf(),
        ensures
            final(self).wf(),
            final(self)@ == char_frame(character),
            r == (if has_glyph(character) { Ok::<(), DisplayError>(()) } else { Err(DisplayError::InvalidCharacter) }),
    {
        self.matrix.show_char(character)
    }

    /// A client command. Command 0 only reports that the driver is present;
    /// command 1 shows the character whose code is the low byte of
    /// `argument`; any other command is not supported.
    pub fn command(&mut self, command_number: usize, argument: usize) -> (r: Result<(), DisplayError>)
        requires
            old(self).wf(),
        ensures
            final(self).wf(),
            command_number != 1 ==> final(self)@ == old(self)@,
            command_number == 0 ==> r == Ok::<(), DisplayError>(()),
            command_number == 1 ==> {
                &&& final(self)@ == char_frame(argument as u8)
                &&& r == (if has_glyph(argument as u8) {
                    Ok::<(), DisplayError>(())
                } else {
                    Err(DisplayError::InvalidCharacter)
                })
            },
            command_number > 1 ==> r == Err::<(), DisplayError>(DisplayError::Unsupported),
    {
        if command_number == 0 {
            Ok(())
        } else if command_number == 1 {
            self.display(argument as u8)
        } else {
            Err(DisplayError::Unsupported)
        }
    }

    /// The state of every LED, from the upper-left one to the lower-right one.
    pub fn leds(&self) -> (r: Vec<bool>)
        requires
            self.wf(),
        ensures
            r@ == self@,
    {
        self.matrix.states()
    }
}

} // verus!
