//! The display state machine: a text screen that scrolls its text one
//! character at a time over the LED matrix.
//!
//! At most one client action is outstanding at a time. An accepted action
//! moves the status away from `Idle` and asks for one deferred callback; the
//! surrounding system must run [`LedMatrixText::call`] for it after the
//! action's own call has returned, and only that call hands the completion
//! to the client and makes the driver idle again. Timer expiries arrive
//! through [`LedMatrixText::alarm`]; whenever a method returns `Some(ms)`
//! as its timer request, the timer is to be armed to fire `ms` milliseconds
//! from now.
use vstd::prelude::*;
use crate::error::DisplayError;
use crate::glyph::has_glyph;
use crate::matrix::{blank_frame, char_frame, LedMatrix};
use crate::scroll::{ScrollBuffer, ScrollView};

verus! {

/// What the driver is doing.
#[derive(Clone, Copy, Debug, PartialEq, Eq, Structural)]
pub enum Status {
    /// Ready to accept an action.
    Idle,
    /// An enable, disable or clear action waits for its completion.
    ExecutingCommand,
    /// A print action waits for its completion.
    ExecutingPrint,
}

/// What the deferred callback hands to the client.
#[derive(Debug)]
pub enum Notification {
    /// No action was outstanding.
    Nothing,
    /// An enable, disable or clear action has completed.
    CommandComplete,
    /// A print action has completed: the client's buffer comes back with
    /// the number of bytes that were taken from it.
    WriteComplete { buffer: Vec<u8>, length: usize },
}

/// The driver in mathematical terms.
pub struct DriverView {
    /// The text being scrolled.
    pub scroll: ScrollView,
    /// The state of each LED.
    pub leds: Seq<bool>,
    /// The outstanding action, if any.
    pub status: Status,
    /// Whether text is shown; when false every LED stays off.
    pub enabled: bool,
    /// Milliseconds between two characters.
    pub speed: u32,
    /// The client's buffer, held while a print action is outstanding.
    pub client_buffer: Option<Seq<u8>>,
    /// How many bytes the outstanding print took from the client's buffer.
    pub client_len: nat,
}

/// The contents of an optional buffer.
pub open spec fn buffer_view(b: Option<Vec<u8>>) -> Option<Seq<u8>> {
    match b {
        Some(v) => Some(v@),
        None => None,
    }
}

/// The LED states for a byte of text: its glyph while enabled, all off
/// while disabled.
pub open spec fn shown(enabled: bool, c: u8) -> Seq<bool> {
    if enabled {
        char_frame(c)
    } else {
        blank_frame()
    }
}

impl DriverView {
    /// The driver's invariant: a well-formed scroll buffer, one state per
    /// LED, and a client buffer held exactly while a print is outstanding.
    pub open spec fn wf(self) -> bool {
        &&& self.scroll.wf()
        &&& self.leds.len() == 25
        &&& (self.status == Status::ExecutingPrint <==> self.client_buffer.is_some())
    }

    /// After showing the next character of the text (all LEDs off when
    /// there is no text).
    pub open spec fn stepped(self) -> DriverView {
        DriverView {
            scroll: self.scroll.advanced(),
            leds: match self.scroll.next_byte() {
                Some(c) => shown(self.enabled, c),
                None => blank_frame(),
            },
            ..self
        }
    }

    /// The timer request after a character was shown: one interval while
    /// there is text, none otherwise.
    pub open spec fn rearm(self) -> Option<u32> {
        if self.scroll.valid_length > 0 {
            Some(self.speed)
        } else {
            None
        }
    }

    /// The number of bytes a print of `len` bytes takes.
    pub open spec fn accepted_length(self, len: nat) -> nat {
        if len < self.scroll.capacity() {
            len
        } else {
            self.scroll.capacity()
        }
    }

    /// Whether an accepted print of `len` bytes starts a fresh scroll: the
    /// buffer held no text and now holds some.
    pub open spec fn starts_scroll(self, len: nat) -> bool {
        self.scroll.valid_length == 0 && self.accepted_length(len) != 0
    }

    /// After `n` timer expiries.
    pub open spec fn stepped_by(self, n: nat) -> DriverView
        decreases n,
    {
        if n == 0 {
            self
        } else {
            self.stepped_by((n - 1) as nat).stepped()
        }
    }

    /// After an accepted print of the first `len` bytes of `data`.
    pub open spec fn printed(self, data: Seq<u8>, len: nat) -> DriverView {
        let n = self.accepted_length(len);
        let loaded = DriverView {
            scroll: self.scroll.loaded(data, n),
            status: Status::ExecutingPrint,
            client_buffer: Some(data),
            client_len: n,
            ..self
        };
        if self.starts_scroll(len) {
            loaded.stepped()
        } else {
            loaded
        }
    }

    /// The timer request of an accepted print.
    pub open spec fn print_timer(self, len: nat) -> Option<u32> {
        if self.starts_scroll(len) {
            Some(self.speed)
        } else {
            None
        }
    }

    /// After an accepted enable (`flag` true) or disable (`flag` false).
    pub open spec fn switched(self, flag: bool) -> DriverView {
        DriverView { status: Status::ExecutingCommand, enabled: flag, ..self }
    }

    /// After an accepted clear.
    pub open spec fn cleared(self) -> DriverView {
        DriverView {
            status: Status::ExecutingCommand,
            scroll: ScrollView { cursor: 0, valid_length: 0, ..self.scroll },
            leds: blank_frame(),
            ..self
        }
    }

    /// After the deferred callback.
    pub open spec fn completed(self) -> DriverView {
        DriverView { status: Status::Idle, client_buffer: None, ..self }
    }
}

/// A text screen on a 5x5 LED matrix that scrolls its text one character
/// at a time.
pub struct LedMatrixText {
    /// The text and the position of the next character.
    scroll: ScrollBuffer,
    /// The LED states.
    matrix: LedMatrix,
    /// The client's buffer, held until the print completes.
    client_buffer: Option<Vec<u8>>,
    /// How many bytes the outstanding print took from the client's buffer.
    client_len: usize,
    /// Milliseconds between two characters.
    speed: u32,
    /// The outstanding action, if any.
    status: Status,
    /// Whether text is shown.
    is_enabled: bool,
}

impl View for LedMatrixText {
    type V = DriverView;

    closed spec fn view(&self) -> DriverView {
        DriverView {
            scroll: self.scroll@,
            leds: self.matrix@,
            status: self.status,
            enabled: self.is_enabled,
            speed: self.speed,
            client_buffer: buffer_view(self.client_buffer),
            client_len: self.client_len as nat,
        }
    }
}

impl LedMatrixText {
    /// The driver's invariant holds.
    pub closed spec fn wf(&self) -> bool {
        &&& self@.wf()
        &&& self.matrix.wf()
    }

    /// A driver that scrolls text held in `buffer` (its capacity is the
    /// buffer's length), showing one character every `speed` milliseconds.
    /// It starts idle and enabled, with no text and every LED off.
    pub fn new(buffer: Vec<u8>, speed: u32) -> (r: LedMatrixText)
        ensures
            r.wf(),
            r@ == (DriverView {
                scroll: ScrollView { storage: buffer@, cursor: 0, valid_length: 0 },
                leds: blank_frame(),
                status: Status::Idle,
                enabled: true,
                speed,
                client_buffer: None,
                client_len: 0,
            }),
    {
        LedMatrixText {
            scroll: ScrollBuffer::new(buffer),
            matrix: LedMatrix::new(),
            client_buffer: None,
            client_len: 0,
            speed,
            status: Status::Idle,
            is_enabled: true,
        }
    }

    /// Shows a byte of text: its glyph while enabled, all LEDs off while
    /// disabled. A byte without a glyph is shown as all LEDs off.
    fn display(&mut self, character: u8) -> (r: Result<(), DisplayError>)
        requires
            old(self).wf(),
        ensures
            final(self).wf(),
            final(self)@ == (DriverView { leds: shown(old(self)@.enabled, character), ..old(self)@ }),
            r == (if old(self)@.enabled && !has_glyph(character) {
                Err::<(), DisplayError>(DisplayError::InvalidCharacter)
            } else {
                Ok(())
            }),
    {
        if self.is_enabled {
            self.matrix.show_char(character)
        } else {
            self.matrix.render_blank();
            Ok(())
        }
    }

    /// Shows the next character of the text and returns the timer request:
    /// one interval while there is text, none when there is nothing to show.
    fn display_next(&mut self) -> (r: Option<u32>)
        requires
            old(self).wf(),
        ensures
            final(self).wf(),
            final(self)@ == old(self)@.stepped(),
            r == old(self)@.rearm(),
    {
        match self.scroll.advance() {
            Some(c) => {
                let _ = self.display(c);
            },
            None => {
                self.matrix.render_blank();
            },
        }
        if self.scroll.valid_length() > 0 {
            Some(self.speed)
        } else {
            None
        }
    }

    /// The timer has fired: shows the next character and returns the timer
    /// request.
    pub fn alarm(&mut self) -> (r: Option<u32>)
        requires
            old(self).wf(),
        ensures
            final(self).wf(),
            final(self)@ == old(self)@.stepped(),
            r == old(self)@.rearm(),
    {
        self.display_next()
    }

    /// The deferred callback: completes the outstanding action, if any, and
    /// makes the driver idle. A completed print hands the client's buffer
    /// back with the number of bytes taken from it.
    pub fn call(&mut self) -> (r: Notification)
        requires
            old(self).wf(),
        ensures
            final(self).wf(),
            final(self)@ == old(self)@.completed(),
            old(self)@.status == Status::Idle ==> r is Nothing,
            old(self)@.status == Status::ExecutingCommand ==> r is CommandComplete,
            old(self)@.status == Status::ExecutingPrint ==> match r {
                Notification::WriteComplete { buffer, length } => {
                    &&& old(self)@.client_buffer == Some(buffer@)
                    &&& length == old(self)@.client_len
                },
                _ => false,
            },
    {
        let r = match self.status {
            Status::Idle => Notification::Nothing,
            Status::ExecutingCommand => Notification::CommandComplete,
            Status::ExecutingPrint => match self.client_buffer.take() {
                Some(buffer) => Notification::WriteComplete { buffer, length: self.client_len },
                None => Notification::Nothing,
            },
        };
        self.client_buffer = None;
        self.status = Status::Idle;
        r
    }

    /// Prints the first `len` bytes of `buffer`.
    ///
    /// Refused with `Busy` while another action is outstanding, and with
    /// `InvalidSize` when `len` exceeds the buffer; a refused print changes
    /// nothing and hands the buffer straight back. An accepted print copies
    /// as many of the bytes as the driver's buffer holds, keeps the client's
    /// buffer until the deferred callback, and returns the timer request: if
    /// the driver held no text before and holds some now, the first
    /// character is shown at once and the timer is to be armed for one
    /// interval; otherwise the scroll goes on at its own pace.
    ///
    /// A print never moves the position: new text overwrites the start of
    /// the driver's buffer and the scroll continues from where it was. Only
    /// a clear sends it back to the first byte.
    pub fn print(&mut self, buffer: Vec<u8>, len: usize) -> (r: Result<Option<u32>, (DisplayError, Vec<u8>)>)
        requires
            old(self).wf(),
        ensures
            final(self).wf(),
            old(self)@.status != Status::Idle ==> {
                &&& r == Err::<Option<u32>, (DisplayError, Vec<u8>)>((DisplayError::Busy, buffer))
                &&& final(self)@ == old(self)@
            },
            old(self)@.status == Status::Idle && len > buffer@.len() ==> {
                &&& r == Err::<Option<u32>, (DisplayError, Vec<u8>)>((DisplayError::InvalidSize, buffer))
                &&& final(self)@ == old(self)@
            },
            old(self)@.status == Status::Idle && len <= buffer@.len() ==> {
                &&& r == Ok::<Option<u32>, (DisplayError, Vec<u8>)>(old(self)@.print_timer(len as nat))
                &&& final(self)@ == old(self)@.printed(buffer@, len as nat)
            },
    {
        if self.status != Status::Idle {
            return Err((DisplayError::Busy, buffer));
        }
        if len > buffer.len() {
            return Err((DisplayError::InvalidSize, buffer));
        }
        self.status = Status::ExecutingPrint;
        let previous_len = self.scroll.valid_length();
        let printed_len = self.scroll.load(buffer.as_slice(), len);
        self.client_buffer = Some(buffer);
        self.client_len = printed_len;
        if previous_len == 0 && printed_len != 0 {
            self.display_next();
            Ok(Some(self.speed))
        } else {
            Ok(None)
        }
    }

    /// Enables the display: from now on the text is shown.
    ///
    /// Refused with `Busy`, changing nothing, while another action is
    /// outstanding.
    pub fn display_on(&mut self) -> (r: Result<(), DisplayError>)
        requires
            old(self).wf(),
        ensures
            final(self).wf(),
            old(self)@.status != Status::Idle ==> r == Err::<(), DisplayError>(DisplayError::Busy)
                && final(self)@ == old(self)@,
            old(self)@.status == Status::Idle ==> r == Ok::<(), DisplayError>(())
                && final(self)@ == old(self)@.switched(true),
    {
        if self.status != Status::Idle {
            return Err(DisplayError::Busy);
        }
        self.status = Status::ExecutingCommand;
        self.is_enabled = true;
        Ok(())
    }

    /// Disables the display: from the next character on every LED stays
    /// off, while the text and its position go on as before.
    ///
    /// Refused with `Busy`, changing nothing, while another action is
    /// outstanding.
    pub fn display_off(&mut self) -> (r: Result<(), DisplayError>)
        requires
            old(self).wf(),
        ensures
            final(self).wf(),
            old(self)@.status != Status::Idle ==> r == Err::<(), DisplayError>(DisplayError::Busy)
                && final(self)@ == old(self)@,
            old(self)@.status == Status::Idle ==> r == Ok::<(), DisplayError>(())
                && final(self)@ == old(self)@.switched(false),
    {
        if self.status != Status::Idle {
            return Err(DisplayError::Busy);
        }
        self.status = Status::ExecutingCommand;
        self.is_enabled = false;
        Ok(())
    }

    /// Drops the text (position and length go back to 0) and turns every
    /// LED off.
    ///
    /// Refused with `Busy`, changing nothing, while another action is
    /// outstanding.
    pub fn clear(&mut self) -> (r: Result<(), DisplayError>)
        requires
            old(self).wf(),
        ensures
            final(self).wf(),
            old(self)@.status != Status::Idle ==> r == Err::<(), DisplayError>(DisplayError::Busy)
                && final(self)@ == old(self)@,
            old(self)@.status == Status::Idle ==> r == Ok::<(), DisplayError>(())
                && final(self)@ == old(self)@.cleared(),
    {
        if self.status != Status::Idle {
            return Err(DisplayError::Busy);
        }
        self.status = Status::ExecutingCommand;
        self.scroll.reset();
        self.matrix.render_blank();
        Ok(())
    }

    /// The screen's size as (columns, rows): one row with as many columns
    /// as the driver's buffer holds bytes.
    pub fn get_size(&self) -> (r: (usize, usize))
        requires
            self.wf(),
        ensures
            r == (self@.scroll.capacity() as usize, 1usize),
    {
        (self.scroll.capacity(), 1)
    }

    /// Cursor positioning is not supported.
    pub fn set_cursor(&self, x_position: usize, y_position: usize) -> (r: Result<(), DisplayError>)
        ensures
            r == Err::<(), DisplayError>(DisplayError::Unsupported),
    {
        Err(DisplayError::Unsupported)
    }

    /// Hiding the cursor is not supported.
    pub fn hide_cursor(&self) -> (r: Result<(), DisplayError>)
        ensures
            r == Err::<(), DisplayError>(DisplayError::Unsupported),
    {
        Err(DisplayError::Unsupported)
    }

    /// Showing the cursor is not supported.
    pub fn show_cursor(&self) -> (r: Result<(), DisplayError>)
        ensures
            r == Err::<(), DisplayError>(DisplayError::Unsupported),
    {
        Err(DisplayError::Unsupported)
    }

    /// A blinking cursor is not supported.
    pub fn blink_cursor_on(&self) -> (r: Result<(), DisplayError>)
        ensures
            r == Err::<(), DisplayError>(DisplayError::Unsupported),
    {
        Err(DisplayError::Unsupported)
    }

    /// A blinking cursor is not supported.
    pub fn blink_cursor_off(&self) -> (r: Result<(), DisplayError>)
        ensures
            r == Err::<(), DisplayError>(DisplayError::Unsupported),
    {
        Err(DisplayError::Unsupported)
    }

    /// A configuration command. Command 0 only reports that the driver is
    /// present; command 1 sets the speed to `argument` milliseconds, taking
    /// effect at the next timer request; any other command is not supported.
    /// None of them waits for an outstanding action.
    pub fn command(&mut self, command_number: usize, argument: usize) -> (r: Result<(), DisplayError>)
        requires
            old(self).wf(),
        ensures
            final(self).wf(),
            command_number == 0 ==> r == Ok::<(), DisplayError>(()) && final(self)@ == old(self)@,
            command_number == 1 ==> r == Ok::<(), DisplayError>(())
                && final(self)@ == (DriverView { speed: argument as u32, ..old(self)@ }),
            command_number > 1 ==> r == Err::<(), DisplayError>(DisplayError::Unsupported)
                && final(self)@ == old(self)@,
    {
        if command_number == 0 {
            Ok(())
        } else if command_number == 1 {
            self.speed = argument as u32;
            Ok(())
        } else {
            Err(DisplayError::Unsupported)
        }
    }

    /// The outstanding action, if any.
    pub fn status(&self) -> (r: Status)
        ensures
            r == self@.status,
    {
        self.status
    }

    /// Whether text is shown.
    pub fn is_enabled(&self) -> (r: bool)
        ensures
            r == self@.enabled,
    {
        self.is_enabled
    }

    /// Milliseconds between two characters.
    pub fn speed(&self) -> (r: u32)
        ensures
            r == self@.speed,
    {
        self.speed
    }

    /// The index of the character of the text that is shown next.
    pub fn cursor(&self) -> (r: usize)
        ensures
            r == self@.scroll.cursor,
    {
        self.scroll.cursor()
    }

    /// How many bytes of text the driver holds.
    pub fn text_len(&self) -> (r: usize)
        ensures
            r == self@.scroll.valid_length,
    {
        self.scroll.valid_length()
    }

    /// The state of every LED, from the upper-left one to the lower-right one.
    pub fn leds(&self) -> (r: Vec<bool>)
        requires
            self.wf(),
        ensures
            r@ == self@.leds,
    {
        self.matrix.states()
    }
}

/// Every transition keeps the driver's invariant, and actions are served one
/// at a time: from an idle driver an accepted print or command leaves exactly
/// that action outstanding; while an action is outstanding timer expiries
/// leave the status alone; the deferred callback makes the driver idle again,
/// holding no client buffer.
pub proof fn lemma_one_action_at_a_time(v: DriverView, data: Seq<u8>, len: nat, flag: bool)
    requires
        v.wf(),
        v.status == Status::Idle,
        len <= data.len(),
    ensures
        v.printed(data, len).wf(),
        v.printed(data, len).status == Status::ExecutingPrint,
        v.printed(data, len).stepped().wf(),
        v.printed(data, len).stepped().status == Status::ExecutingPrint,
        v.printed(data, len).completed().wf(),
        v.printed(data, len).completed().status == Status::Idle,
        v.printed(data, len).completed().client_buffer.is_none(),
        v.switched(flag).wf(),
        v.switched(flag).status == Status::ExecutingCommand,
        v.switched(flag).stepped().status == Status::ExecutingCommand,
        v.switched(flag).completed().status == Status::Idle,
        v.cleared().wf(),
        v.cleared().status == Status::ExecutingCommand,
        v.cleared().stepped().status == Status::ExecutingCommand,
        v.cleared().completed().status == Status::Idle,
        v.stepped().wf(),
        v.stepped().status == Status::Idle,
{
    let n = v.accepted_length(len);
    assert(v.scroll.loaded(data, n).storage.len() == v.scroll.capacity());
}

/// Blanking keeps the scroll: with the display disabled the next character
/// turns every LED off, yet the text and the position move on exactly as they
/// would with the display enabled; enabling or disabling touches neither the
/// text nor its position.
pub proof fn lemma_blanking_keeps_position(v: DriverView)
    requires
        v.wf(),
    ensures
        v.switched(false).scroll == v.scroll,
        v.switched(true).scroll == v.scroll,
        v.switched(false).stepped().leds == blank_frame(),
        v.switched(false).stepped().scroll == v.switched(true).stepped().scroll,
        v.switched(false).stepped().scroll == v.stepped().scroll,
{
}

/// Timer expiries scroll the text cyclically: over a text of length `L > 0`,
/// expiry number `n` (counting from 0) shows byte `(start + n) mod L` of the
/// text, or all LEDs off while the display is disabled, and changes nothing
/// but the LEDs and the position.
pub proof fn lemma_timer_scrolls_cyclically(v: DriverView, n: nat)
    requires
        v.wf(),
        v.scroll.valid_length > 0,
    ensures
        v.stepped_by(n).scroll == v.scroll.advanced_by(n),
        v.stepped_by(n).status == v.status,
        v.stepped_by(n).enabled == v.enabled,
        v.stepped_by(n).client_buffer == v.client_buffer,
        v.stepped_by(n + 1).leds == shown(
            v.enabled,
            v.scroll.storage[(v.scroll.start() + n) as int % (v.scroll.valid_length as int)],
        ),
    decreases n,
{
    if n > 0 {
        lemma_timer_scrolls_cyclically(v, (n - 1) as nat);
    }
    crate::scroll::lemma_scroll_cycles(v.scroll, n);
}

} // verus!
