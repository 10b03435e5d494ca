//! A driver that shows a process's text once, one character at a time.
//!
//! Each process keeps its own [`AppData`]: the text buffer it shared with the
//! driver, the requested length, the position reached and the delay between
//! characters. The surrounding system finds the record of the process that a
//! call concerns and hands it to the driver.
use vstd::prelude::*;
use crate::error::DisplayError;
use crate::matrix::{blank_frame, char_frame, LedMatrix};

verus! {

/// A process's record in mathematical terms.
pub struct AppView {
    /// The text buffer the process shared; empty when none.
    pub buffer: Seq<u8>,
    /// The index of the character that is shown next.
    pub position: nat,
    /// How many bytes of the buffer are to be shown.
    pub len: nat,
    /// Milliseconds that each character stays on.
    pub delay_ms: nat,
}

impl AppView {
    /// The text lies within the buffer and the position within the text.
    pub open spec fn wf(self) -> bool {
        &&& self.len <= self.buffer.len()
        &&& self.position <= self.len
    }
}

/// What a process asked the driver to show, and how far it has got.
pub struct AppData {
    buffer: Vec<u8>,
    position: usize,
    len: usize,
    delay_ms: usize,
}

impl View for AppData {
    type V = AppView;

    closed spec fn view(&self) -> AppView {
        AppView {
            buffer: self.buffer@,
            position: self.position as nat,
            len: self.len as nat,
            delay_ms: self.delay_ms as nat,
        }
    }
}

impl AppData {
    /// The view is well formed.
    pub open spec fn wf(&self) -> bool {
        self@.wf()
    }

    /// The record of a process that has shared no buffer yet.
    pub fn new() -> (r: AppData)
        ensures
            r.wf(),
            r@ == (AppView { buffer: Seq::empty(), position: 0, len: 0, delay_ms: 0 }),
    {
        AppData { buffer: Vec::new(), position: 0, len: 0, delay_ms: 0 }
    }

    /// The index of the character that is shown next.
    pub fn position(&self) -> (r: usize)
        ensures
            r == self@.position,
    {
        self.position
    }

    /// How many bytes of the buffer are to be shown.
    pub fn len(&self) -> (r: usize)
        ensures
            r == self@.len,
    {
        self.len
    }

    /// Milliseconds that each character stays on.
    pub fn delay_ms(&self) -> (r: usize)
        ensures
            r == self@.delay_ms,
    {
        self.delay_ms
    }
}

/// What the surrounding system must do after a step of the display.
#[derive(Clone, Copy, Debug, PartialEq, Eq, Structural)]
pub enum TextStep {
    /// Nothing: no text is being shown.
    Nothing,
    /// A character is on: arm the timer for this many milliseconds.
    Continue(usize),
    /// The whole text has been shown: tell the process it succeeded.
    Done,
}

/// The driver in mathematical terms.
pub struct TextDisplayView {
    /// The state of each LED.
    pub leds: Seq<bool>,
    /// Whether a text is being shown.
    pub in_progress: bool,
    /// The process whose text is being shown.
    pub process_id: Option<usize>,
}

/// Shows the text of one process at a time on the LED matrix.
pub struct TextDisplay {
    matrix: LedMatrix,
    in_progress: bool,
    process_id: Option<usize>,
}

impl View for TextDisplay {
    type V = TextDisplayView;

    closed spec fn view(&self) -> TextDisplayView {
        TextDisplayView {
            leds: self.matrix@,
            in_progress: self.in_progress,
            process_id: self.process_id,
        }
    }
}

impl TextDisplay {
    /// The matrix holds one state per LED, and a text in progress belongs to
    /// a process.
    pub closed spec fn wf(&self) -> bool {
        &&& self.matrix.wf()
        &&& (self.in_progress ==> self.process_id.is_some())
    }

    /// An idle driver with every LED off.
    pub fn new() -> (r: TextDisplay)
        ensures
            r.wf(),
            r@ == (TextDisplayView { leds: blank_frame(), in_progress: false, process_id: None }),
    {
        TextDisplay { matrix: LedMatrix::new(), in_progress: false, process_id: None }
    }

    /// Shows the next character of `app`'s text and says what to do next:
    /// arm the timer while characters remain, report completion (and stop)
    /// once the whole text has been shown, nothing when no text is in
    /// progress.
    pub fn display_next(&mut self, app: &mut AppData) -> (r: TextStep)
        requires
            old(self).wf(),
            old(app).wf(),
        ensures
            final(self).wf(),
            final(app).wf(),
            final(self)@.process_id == old(self)@.process_id,
            !old(self)@.in_progress ==> {
                &&& r == TextStep::Nothing
                &&& final(self)@ == old(self)@
                &&& final(app)@ == old(app)@
            },
            old(self)@.in_progress && old(app)@.position < old(app)@.len ==> {
                &&& r == TextStep::Continue(old(app)@.delay_ms as usize)
                &&& final(self)@.leds == char_frame(old(app)@.buffer[old(app)@.position as int])
                &&& final(self)@.in_progress
                &&& final(app)@ == (AppView { position: old(app)@.position + 1, ..old(app)@ })
            },
            old(self)@.in_progress && old(app)@.position >= old(app)@.len ==> {
                &&& r == TextStep::Done
                &&& final(self)@ == (TextDisplayView { in_progress: false, ..old(self)@ })
                &&& final(app)@ == old(app)@
            },
    {
        if !self.in_progress {
            return TextStep::Nothing;
        }
        if app.position < app.len {
            let _ = self.matrix.show_char(app.buffer[app.position]);
            app.position = app.position + 1;
            TextStep::Continue(app.delay_ms)
        } else {
            self.in_progress = false;
            TextStep::Done
        }
    }

    /// The process whose text was being shown is gone: stop showing it.
    pub fn abandon(&mut self)
        requires
            old(self).wf(),
        ensures
            final(self).wf(),
            final(self)@ == (TextDisplayView { in_progress: false, ..old(self)@ }),
    {
        self.in_progress = false;
    }

    /// A process shares a text buffer (`allow_number` 0): it replaces the
    /// one in `app`, which comes back, and the position, length and delay
    /// go back to 0. Any other `allow_number` is not supported and hands
    /// `buffer` back.
    pub fn allow_readonly(&self, app: &mut AppData, allow_number: usize, mut buffer: Vec<u8>) -> (r: Result<Vec<u8>, (Vec<u8>, DisplayError)>)
        requires
            old(app).wf(),
        ensures
            final(app).wf(),
            allow_number == 0 ==> {
                &&& final(app)@ == (AppView { buffer: buffer@, position: 0, len: 0, delay_ms: 0 })
                &&& r matches Ok(previous) && previous@ == old(app)@.buffer
            },
            allow_number != 0 ==> {
                &&& final(app)@ == old(app)@
                &&& r == Err::<Vec<u8>, (Vec<u8>, DisplayError)>((buffer, DisplayError::Unsupported))
            },
    {
        if allow_number == 0 {
            core::mem::swap(&mut app.buffer, &mut buffer);
            app.len = 0;
            app.position = 0;
            app.delay_ms = 0;
            Ok(buffer)
        } else {
            Err((buffer, DisplayError::Unsupported))
        }
    }

    /// A command of process `process_id`, whose record is `app`.
    ///
    /// Command 0 only reports that the driver is present. Command 1 shows the
    /// first `argument` bytes of the process's buffer, each for `delay_ms`
    /// milliseconds: it is refused with `Busy` while a text is in progress,
    /// with `NoBuffer` when the process has shared no buffer, and with
    /// `InvalidSize` when the buffer is shorter than `argument`; otherwise the
    /// display starts from the first byte and the first step is returned.
    /// Any other command is not supported. A refused command changes nothing.
    pub fn command(&mut self, app: &mut AppData, process_id: usize, command_number: usize, argument: usize, delay_ms: usize) -> (r: Result<TextStep, DisplayError>)
        requires
            old(self).wf(),
            old(app).wf(),
        ensures
            final(self).wf(),
            final(app).wf(),
            r is Err ==> final(self)@ == old(self)@ && final(app)@ == old(app)@,
            command_number == 0 ==> r == Ok::<TextStep, DisplayError>(TextStep::Nothing)
                && final(self)@ == old(self)@ && final(app)@ == old(app)@,
            command_number > 1 ==> r == Err::<TextStep, DisplayError>(DisplayError::Unsupported),
            command_number == 1 && old(self)@.in_progress ==> r == Err::<TextStep, DisplayError>(DisplayError::Busy),
            command_number == 1 && !old(self)@.in_progress && old(app)@.buffer.len() == 0
                ==> r == Err::<TextStep, DisplayError>(DisplayError::NoBuffer),
            command_number == 1 && !old(self)@.in_progress && 0 < old(app)@.buffer.len() < argument
                ==> r == Err::<TextStep, DisplayError>(DisplayError::InvalidSize),
            command_number == 1 && !old(self)@.in_progress && 0 < old(app)@.buffer.len() && argument <= old(app)@.buffer.len() ==> {
                &&& final(self)@.process_id == Some(process_id)
                &&& final(app)@.buffer == old(app)@.buffer
                &&& final(app)@.len == argument
                &&& final(app)@.delay_ms == delay_ms
                &&& argument > 0 ==> {
                    &&& r == Ok::<TextStep, DisplayError>(TextStep::Continue(delay_ms))
                    &&& final(self)@.in_progress
                    &&& final(self)@.leds == char_frame(old(app)@.buffer[0])
                    &&& final(app)@.position == 1
                }
                &&& argument == 0 ==> {
                    &&& r == Ok::<TextStep, DisplayError>(TextStep::Done)
                    &&& !final(self)@.in_progress
                    &&& final(self)@.leds == old(self)@.leds
                    &&& final(app)@.position == 0
                }
            },
    {
        if command_number == 0 {
            Ok(TextStep::Nothing)
        } else if command_number == 1 {
            if self.in_progress {
                return Err(DisplayError::Busy);
            }
            if app.buffer.len() == 0 {
                return Err(DisplayError::NoBuffer);
            }
            if app.buffer.len() < argument {
                return Err(DisplayError::InvalidSize);
            }
            app.position = 0;
            app.len = argument;
            app.delay_ms = delay_ms;
            self.process_id = Some(process_id);
            self.in_progress = true;
            Ok(self.display_next(app))
        } else {
            Err(DisplayError::Unsupported)
        }
    }

    /// Whether a text is being shown.
    pub fn in_progress(&self) -> (r: bool)
        ensures
            r == self@.in_progress,
    {
        self.in_progress
    }

    /// The process whose text is, or was last, being shown.
    pub fn process_id(&self) -> (r: Option<usize>)
        ensures
            r == self@.process_id,
    {
        self.process_id
    }

    /// The state of every LED, from the upper-left one to the lower-right one.
    pub fn leds(&self) -> (r: Vec<bool>)
        requires
            self.wf(),
        ensures
            r@ == self@.leds,
    {
        self.matrix.states()
    }
}

} // verus!
