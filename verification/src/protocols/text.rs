//! The simple text input and output protocols.

use crate::boot_services::protocols::{Guid, Protocol};
use crate::pointers::OwnedPtr;
use crate::types::{outcome, spec_outcome, Bool, Char16, Status};
use vstd::prelude::*;

verus! {

/// A color of the text console.
#[derive(Clone, Copy, Debug, PartialEq, Eq, Structural)]
pub enum Color {
    Black,
    Blue,
    Green,
    Cyan,
    Red,
    Magenta,
    Brown,
    LightGray,
    DarkGray,
    LightBlue,
    LightGreen,
    LightCyan,
    LightRed,
    LightMagenta,
    Yellow,
    White,
}

impl Color {
    /// The number the firmware uses for this color.
    pub open spec fn spec_code(self) -> usize {
        match self {
            Color::Black => 0,
            Color::Blue => 1,
            Color::Green => 2,
            Color::Cyan => 3,
            Color::Red => 4,
            Color::Magenta => 5,
            Color::Brown => 6,
            Color::LightGray => 7,
            Color::DarkGray => 8,
            Color::LightBlue => 9,
            Color::LightGreen => 10,
            Color::LightCyan => 11,
            Color::LightRed => 12,
            Color::LightMagenta => 13,
            Color::Yellow => 14,
            Color::White => 15,
        }
    }

    /// Whether the color can be a background: only the eight dark colors can.
    pub open spec fn spec_is_background(self) -> bool {
        self.spec_code() < 8
    }

    /// The number the firmware uses for this color.
    pub fn code(&self) -> (r: usize)
        ensures
            r == self.spec_code(),
            r < 16,
    {
        match self {
            Color::Black => 0,
            Color::Blue => 1,
            Color::Green => 2,
            Color::Cyan => 3,
            Color::Red => 4,
            Color::Magenta => 5,
            Color::Brown => 6,
            Color::LightGray => 7,
            Color::DarkGray => 8,
            Color::LightBlue => 9,
            Color::LightGreen => 10,
            Color::LightCyan => 11,
            Color::LightRed => 12,
            Color::LightMagenta => 13,
            Color::Yellow => 14,
            Color::White => 15,
        }
    }

    /// Whether the color can be a background.
    pub fn is_background(&self) -> (r: bool)
        ensures
            r == self.spec_is_background(),
    {
        self.code() < 8
    }
}

/// The attribute word for a foreground on a background: the background in bits
/// four to six, the foreground in the low four bits.
pub open spec fn spec_attribute(foreground: Color, background: Color) -> usize {
    (background.spec_code() * 16 + foreground.spec_code()) as usize
}

/// For a background below eight and a foreground below sixteen, sixteen times
/// the one plus the other is the one shifted left by four, or'ed with the other.
pub proof fn lemma_attribute_bits(foreground: u64, background: u64)
    requires
        foreground < 16,
        background < 8,
    ensures
        background * 16 + foreground == (background << 4) | foreground,
{
    assert(foreground < 16 && background < 8 ==> background * 16 + foreground == (background
        << 4) | foreground) by (bit_vector);
}

/// Describes a keystroke
#[derive(Clone, Copy, Debug, PartialEq, Eq, Structural)]
pub struct InputKey {
    pub scan_code: u16,
    pub unicode_char: Char16,
}

impl Default for InputKey {
    fn default() -> (r: InputKey)
        ensures
            r == (InputKey { scan_code: 0, unicode_char: 0 }),
    {
        InputKey { scan_code: 0, unicode_char: 0 }
    }
}

/// Describes the dimensions of an output device mode
#[derive(Clone, Copy, Debug, PartialEq, Eq, Structural)]
pub struct ModeDescriptor {
    pub columns: usize,
    pub rows: usize,
}

impl Default for ModeDescriptor {
    fn default() -> (r: ModeDescriptor)
        ensures
            r == (ModeDescriptor { columns: 0, rows: 0 }),
    {
        ModeDescriptor { columns: 0, rows: 0 }
    }
}

/// Describes the current attributes of the output device
#[derive(Clone, Copy, Debug, PartialEq, Eq, Structural)]
pub struct SimpleTextOutputMode {
    pub max_mode: i32,
    pub mode: i32,
    pub attribute: i32,
    pub cursor_column: i32,
    pub cursor_row: i32,
    pub cursor_visible: Bool,
}

/// The slots of a simple text input interface, one operation per slot.
pub trait TextInputSlots {
    /// Resets the input device.
    fn reset(&self, extended_verification: Bool) -> Status;

    /// Reads the next keystroke. The second component is what the firmware left
    /// in the key it was handed, which starts out zeroed.
    fn read_key_stroke(&self) -> (Status, InputKey);
}

/// This protocol is used to obtain input from the ConsoleIn device
pub struct SimpleTextInput<S: TextInputSlots> {
    pub slots: S,
    /// Token of the event that is signaled when a key is ready.
    pub wait_for_key: usize,
}

impl<S: TextInputSlots> SimpleTextInput<S> {
    /// Reset the ConsoleIn device
    pub fn reset(&self, extended_verification: bool) -> (r: Result<(), Status>)
        ensures
            exists|status: Status|
                call_ensures(S::reset, (&self.slots, Bool::spec_of(extended_verification)), status)
                    && r == spec_outcome(status, ()),
    {
        let status = self.slots.reset(Bool::from(extended_verification));
        outcome(status, ())
    }

    /// Returns the next input character
    pub fn read_key_stroke(&self) -> (r: Result<InputKey, Status>)
        ensures
            exists|reply: (Status, InputKey)|
                call_ensures(S::read_key_stroke, (&self.slots,), reply) && r == spec_outcome(
                    reply.0,
                    reply.1,
                ),
    {
        let reply = self.slots.read_key_stroke();
        outcome(reply.0, reply.1)
    }
}

/// The characters that go out in one call: one less than the buffer holds, so
/// that a null always ends the text.
pub const CHUNK: usize = 127;

/// The first UTF-16 code unit of a character: the character itself where it has
/// one unit, its high surrogate where it has two.
pub open spec fn spec_first_unit(c: char) -> u16 {
    if (c as u32) < 0x10000 {
        c as u16
    } else {
        (0xD800 + ((c as u32) - 0x10000) / 0x400) as u16
    }
}

/// The first UTF-16 code unit of a character.
pub fn first_unit(c: char) -> (r: u16)
    ensures
        r == spec_first_unit(c),
{
    let code: u32 = c as u32;
    if code < 0x10000 {
        code as u16
    } else {
        let high: u32 = 0xD800 + (code - 0x10000) / 0x400;
        high as u16
    }
}

/// The code units that a text goes out as: the first unit of each character.
pub open spec fn spec_units(text: Seq<char>) -> Seq<u16> {
    text.map_values(|c: char| spec_first_unit(c))
}

/// The number of calls that `length` units take.
pub open spec fn spec_chunk_count(length: nat) -> nat {
    ((length + 126) / 127) as nat
}

/// The units of the buffer that every call is handed.
pub const BUFSIZE: usize = 128;

/// The buffer that holds `piece`: its units first, then nulls up to 128 units.
pub open spec fn spec_padded(piece: Seq<u16>) -> Seq<u16> {
    Seq::new(
        128,
        |i: int|
            if i < piece.len() {
                piece[i]
            } else {
                0u16
            },
    )
}

/// The units of the piece numbered `k`: those from `127 * k` on, 127 of them or
/// as many as are left.
pub open spec fn spec_piece(units: Seq<u16>, k: int) -> Seq<u16> {
    units.subrange(
        127 * k,
        if 127 * (k + 1) <= units.len() {
            127 * (k + 1)
        } else {
            units.len() as int
        },
    )
}

/// What the call numbered `k` is handed: a buffer of 128 units that holds the
/// piece numbered `k` and nulls behind it.
pub open spec fn spec_chunk(units: Seq<u16>, k: int) -> Seq<u16> {
    spec_padded(spec_piece(units, k))
}

/// Every buffer has 128 units, holds its piece at its start and nothing but nulls
/// from the end of the piece on; the piece has at most 127 units, so the last
/// unit of the buffer is a null.
pub proof fn lemma_chunk_shape(units: Seq<u16>, k: int)
    requires
        0 <= k < spec_chunk_count(units.len()),
    ensures
        spec_chunk(units, k).len() == 128,
        0 < spec_piece(units, k).len() <= 127,
        forall|i: int|
            0 <= i < spec_piece(units, k).len() ==> spec_chunk(units, k)[i] == units[127 * k
                + i],
        forall|i: int|
            spec_piece(units, k).len() <= i < 128 ==> spec_chunk(units, k)[i] == 0,
        spec_chunk(units, k)[127] == 0,
{
}

/// Fills a piece with nulls up to the size of the buffer.
fn padded(piece: Vec<u16>) -> (r: Vec<u16>)
    requires
        piece.len() <= BUFSIZE,
    ensures
        r@ == spec_padded(piece@),
{
    let ghost start = piece@;
    let mut buf = piece;
    while buf.len() < BUFSIZE
        invariant
            start.len() <= buf.len() <= 128,
            forall|i: int| 0 <= i < start.len() ==> buf@[i] == start[i],
            forall|i: int| start.len() <= i < buf.len() ==> buf@[i] == 0,
        decreases 128 - buf.len(),
    {
        buf.push(0u16);
    }
    assert(buf@ =~= spec_padded(start));
    buf
}

/// Whether `statuses` are answers that the calls for `units` can get, in order,
/// where `answer` says which status a call with a given chunk can get: each call
/// gets its chunk, only the last answer may be an error, and the calls stop short
/// of the last chunk only on an error.
pub open spec fn text_transcript_admissible(
    answer: spec_fn(Seq<u16>, Status) -> bool,
    units: Seq<u16>,
    statuses: Seq<Status>,
) -> bool {
    &&& statuses.len() <= spec_chunk_count(units.len())
    &&& forall|k: int|
        0 <= k < statuses.len() ==> answer(spec_chunk(units, k), #[trigger] statuses[k])
    &&& forall|k: int| 0 <= k < statuses.len() - 1 ==> !(#[trigger] statuses[k]).is_error()
    &&& (statuses.len() < spec_chunk_count(units.len()) ==> statuses.len() > 0
        && statuses.last().is_error())
}

/// What the answers amount to: the error of the last call, if it was one.
pub open spec fn spec_text_result(statuses: Seq<Status>) -> Result<(), Status> {
    if statuses.len() > 0 && statuses.last().is_error() {
        Err(statuses.last())
    } else {
        Ok(())
    }
}

/// Answers that are admissible under one account of the firmware are admissible
/// under any account that allows at least as much.
pub proof fn lemma_transcript_weaken(
    narrow: spec_fn(Seq<u16>, Status) -> bool,
    wide: spec_fn(Seq<u16>, Status) -> bool,
    units: Seq<u16>,
    statuses: Seq<Status>,
)
    requires
        text_transcript_admissible(narrow, units, statuses),
        forall|chunk: Seq<u16>, status: Status| #[trigger]
            narrow(chunk, status) ==> wide(chunk, status),
    ensures
        text_transcript_admissible(wide, units, statuses),
{
}

/// Whether a call of `f` with a buffer that holds `chunk` can return `status`.
pub open spec fn spec_answers<F: Fn(&[u16]) -> Status>(f: F, chunk: Seq<u16>, status: Status) -> bool {
    exists|buffer: &[u16]| buffer@ == chunk && call_ensures(f, (buffer,), status)
}

/// The account of `f` as a firmware: which status a call with a given chunk can
/// get.
pub open spec fn spec_answer_of<F: Fn(&[u16]) -> Status>(f: F) -> spec_fn(Seq<u16>, Status) -> bool {
    |chunk: Seq<u16>, status: Status| spec_answers(f, chunk, status)
}

/// Converts string to Char16 and calls the given function
///
/// The text goes out as UTF-16, a piece of at most 127 units at a time, each
/// piece in a buffer of 128 units that is filled up with nulls; of a character
/// that takes two units only the first goes out. `f` is called once for each
/// piece, in order, until one call answers with an error: that error is returned
/// and no further call is made.
pub fn exec_with_str<F: Fn(&[u16]) -> Status>(string: &str, f: F) -> (r: Result<(), Status>)
    requires
        forall|buffer: &[u16]| call_requires(f, (buffer,)),
    ensures
        exists|statuses: Seq<Status>| #[trigger]
            text_transcript_admissible(spec_answer_of(f), spec_units(string@), statuses) && r
                == spec_text_result(statuses),
{
    let ghost units = spec_units(string@);
    let ghost answer = spec_answer_of(f);
    let ghost mut statuses: Seq<Status> = Seq::empty();
    let mut buf: Vec<u16> = Vec::new();
    for c in it: string.chars()
        invariant
            it.seq() == string@,
            units == spec_units(string@),
            answer == spec_answer_of(f),
            forall|buffer: &[u16]| call_requires(f, (buffer,)),
            buf.len() < 127,
            it.index() == 127 * statuses.len() + buf.len(),
            buf@ == units.subrange(127 * (statuses.len() as int), it.index() as int),
            forall|k: int|
                0 <= k < statuses.len() ==> answer(spec_chunk(units, k), #[trigger] statuses[k]),
            forall|k: int| 0 <= k < statuses.len() ==> !(#[trigger] statuses[k]).is_error(),
    {
        let unit = first_unit(c);
        assert(unit == units[it.index() as int]);
        buf.push(unit);
        assert(buf@ == units.subrange(127 * (statuses.len() as int), it.index() + 1));
        if buf.len() == CHUNK {
            let buffer = padded(buf);
            assert(buffer@ == spec_chunk(units, statuses.len() as int));
            let status = f(buffer.as_slice());
            assert(answer(spec_chunk(units, statuses.len() as int), status));
            proof {
                statuses = statuses.push(status);
            }
            match status.as_result() {
                Err(e) => {
                    assert(text_transcript_admissible(answer, units, statuses));
                    return Err(e);
                },
                Ok(_) => {},
            }
            buf = Vec::new();
            assert(buf@ == units.subrange(127 * (statuses.len() as int), it.index() + 1));
        }
    }
    if buf.len() != 0 {
        let buffer = padded(buf);
        assert(buffer@ == spec_chunk(units, statuses.len() as int));
        let status = f(buffer.as_slice());
        assert(answer(spec_chunk(units, statuses.len() as int), status));
        proof {
            statuses = statuses.push(status);
            assert(text_transcript_admissible(answer, units, statuses));
        }
        outcome(status, ())
    } else {
        proof {
            assert(text_transcript_admissible(answer, units, statuses));
        }
        Ok(())
    }
}

/// The slots of a simple text output interface, one operation per slot.
pub trait TextOutputSlots {
    /// Resets the output device.
    fn reset(&self, extended_verification: Bool) -> Status;

    /// Writes a null-terminated string at the cursor.
    fn output_string(&self, string: &[u16]) -> Status;

    /// Tests whether the device can show a null-terminated string.
    fn test_string(&self, string: &[u16]) -> Status;

    /// Asks for the dimensions of a mode. The second component is what the
    /// firmware left in the dimensions it was handed, which start out zeroed.
    fn query_mode(&self, mode_number: usize) -> (Status, ModeDescriptor);

    /// Sets the mode.
    fn set_mode(&self, mode_number: usize) -> Status;

    /// Sets the attribute word for text written from now on.
    fn set_attribute(&self, attribute: usize) -> Status;

    /// Clears the screen.
    fn clear_screen(&self) -> Status;

    /// Moves the cursor.
    fn set_cursor_position(&self, column: usize, row: usize) -> Status;

    /// Shows or hides the cursor.
    fn enable_cursor(&self, visible: Bool) -> Status;
}

/// This protocol is used to control text-based output devices
pub struct SimpleTextOutput<S: TextOutputSlots> {
    pub slots: S,
    pub mode: OwnedPtr<SimpleTextOutputMode>,
}

/// Whether a call of the device's output slot with a buffer that holds `chunk`
/// can return `status`.
pub open spec fn spec_output_answer<S: TextOutputSlots>(slots: &S) -> spec_fn(
    Seq<u16>,
    Status,
) -> bool {
    |chunk: Seq<u16>, status: Status|
        exists|buffer: &[u16]|
            buffer@ == chunk && call_ensures(S::output_string, (slots, buffer), status)
}

/// Whether a call of the device's test slot with a buffer that holds `chunk` can
/// return `status`.
pub open spec fn spec_test_answer<S: TextOutputSlots>(slots: &S) -> spec_fn(
    Seq<u16>,
    Status,
) -> bool {
    |chunk: Seq<u16>, status: Status|
        exists|buffer: &[u16]|
            buffer@ == chunk && call_ensures(S::test_string, (slots, buffer), status)
}

impl<S: TextOutputSlots> SimpleTextOutput<S> {
    /// Reset the ConsoleOut device
    pub fn reset(&self, extended_verification: bool) -> (r: Result<(), Status>)
        ensures
            exists|status: Status|
                call_ensures(S::reset, (&self.slots, Bool::spec_of(extended_verification)), status)
                    && r == spec_outcome(status, ()),
    {
        let status = self.slots.reset(Bool::from(extended_verification));
        outcome(status, ())
    }

    /// Displays the string on the device at the current cursor location
    ///
    /// The string goes out as `exec_with_str` sends it, through the device's
    /// output slot.
    pub fn output_string(&self, string: &str) -> (r: Result<(), Status>)
        ensures
            exists|statuses: Seq<Status>| #[trigger]
                text_transcript_admissible(
                    spec_output_answer(&self.slots),
                    spec_units(string@),
                    statuses,
                ) && r == spec_text_result(statuses),
    {
        let f = |buffer: &[u16]| -> (status: Status)
            ensures
                call_ensures(S::output_string, (&self.slots, buffer), status),
            { self.slots.output_string(buffer) };
        let r = exec_with_str(string, f);
        proof {
            let statuses = choose|statuses: Seq<Status>| #[trigger]
                text_transcript_admissible(spec_answer_of(f), spec_units(string@), statuses) && r
                    == spec_text_result(statuses);
            lemma_transcript_weaken(
                spec_answer_of(f),
                spec_output_answer(&self.slots),
                spec_units(string@),
                statuses,
            );
        }
        r
    }

    /// Tests to see if the ConsoleOut device supports this string
    ///
    /// The string goes out as `exec_with_str` sends it, through the device's test
    /// slot.
    pub fn test_string(&self, string: &str) -> (r: Result<(), Status>)
        ensures
            exists|statuses: Seq<Status>| #[trigger]
                text_transcript_admissible(
                    spec_test_answer(&self.slots),
                    spec_units(string@),
                    statuses,
                ) && r == spec_text_result(statuses),
    {
        let f = |buffer: &[u16]| -> (status: Status)
            ensures
                call_ensures(S::test_string, (&self.slots, buffer), status),
            { self.slots.test_string(buffer) };
        let r = exec_with_str(string, f);
        proof {
            let statuses = choose|statuses: Seq<Status>| #[trigger]
                text_transcript_admissible(spec_answer_of(f), spec_units(string@), statuses) && r
                    == spec_text_result(statuses);
            lemma_transcript_weaken(
                spec_answer_of(f),
                spec_test_answer(&self.slots),
                spec_units(string@),
                statuses,
            );
        }
        r
    }

    /// Queries information concerning the output device's supported text mode
    pub fn query_mode(&self, mode_number: usize) -> (r: Result<ModeDescriptor, Status>)
        ensures
            exists|reply: (Status, ModeDescriptor)|
                call_ensures(S::query_mode, (&self.slots, mode_number), reply) && r
                    == spec_outcome(reply.0, reply.1),
    {
        let reply = self.slots.query_mode(mode_number);
        outcome(reply.0, reply.1)
    }

    /// Sets the current mode of the output device
    pub fn set_mode(&self, mode_number: usize) -> (r: Result<(), Status>)
        ensures
            exists|status: Status|
                call_ensures(S::set_mode, (&self.slots, mode_number), status) && r
                    == spec_outcome(status, ()),
    {
        let status = self.slots.set_mode(mode_number);
        outcome(status, ())
    }

    /// Sets the foreground and background color of the text that is output
    ///
    /// A background that is not one of the eight dark colors is refused with
    /// `InvalidParameter`, and the device is not asked.
    pub fn set_attribute(&self, foreground: Color, background: Color) -> (r: Result<(), Status>)
        ensures
            !background.spec_is_background() ==> r == Err::<(), Status>(Status::InvalidParameter),
            background.spec_is_background() ==> exists|status: Status|
                call_ensures(
                    S::set_attribute,
                    (&self.slots, spec_attribute(foreground, background)),
                    status,
                ) && r == spec_outcome(status, ()),
    {
        if !background.is_background() {
            return Err(Status::InvalidParameter);
        }
        let attribute: usize = background.code() * 16 + foreground.code();
        let status = self.slots.set_attribute(attribute);
        outcome(status, ())
    }

    /// Clears the screen with the currently set background color
    pub fn clear_screen(&self) -> (r: Result<(), Status>)
        ensures
            exists|status: Status|
                call_ensures(S::clear_screen, (&self.slots,), status) && r == spec_outcome(
                    status,
                    (),
                ),
    {
        let status = self.slots.clear_screen();
        outcome(status, ())
    }

    /// Sets the current cursor position
    pub fn set_cursor_position(&self, column: usize, row: usize) -> (r: Result<(), Status>)
        ensures
            exists|status: Status|
                call_ensures(S::set_cursor_position, (&self.slots, column, row), status) && r
                    == spec_outcome(status, ()),
    {
        let status = self.slots.set_cursor_position(column, row);
        outcome(status, ())
    }

    /// Turns the visibility of the cursor on/off
    pub fn enable_cursor(&self, visible: bool) -> (r: Result<(), Status>)
        ensures
            exists|status: Status|
                call_ensures(S::enable_cursor, (&self.slots, Bool::spec_of(visible)), status) && r
                    == spec_outcome(status, ()),
    {
        let status = self.slots.enable_cursor(Bool::from(visible));
        outcome(status, ())
    }
}

impl<S: TextInputSlots> Protocol for SimpleTextInput<S> {
    open spec fn spec_guid() -> Guid {
        Guid {
            data_1: 0x387477c1,
            data_2: 0x69c7,
            data_3: 0x11d2,
            data_4: [0x8e, 0x39, 0x00, 0xa0, 0xc9, 0x69, 0x72, 0x3b],
        }
    }

    fn guid() -> (r: Guid) {
        Guid {
            data_1: 0x387477c1,
            data_2: 0x69c7,
            data_3: 0x11d2,
            data_4: [0x8e, 0x39, 0x00, 0xa0, 0xc9, 0x69, 0x72, 0x3b],
        }
    }
}

impl<S: TextOutputSlots> Protocol for SimpleTextOutput<S> {
    open spec fn spec_guid() -> Guid {
        Guid {
            data_1: 0x387477c2,
            data_2: 0x69c7,
            data_3: 0x11d2,
            data_4: [0x8e, 0x39, 0x00, 0xa0, 0xc9, 0x69, 0x72, 0x3b],
        }
    }

    fn guid() -> (r: Guid) {
        Guid {
            data_1: 0x387477c2,
            data_2: 0x69c7,
            data_3: 0x11d2,
            data_4: [0x8e, 0x39, 0x00, 0xa0, 0xc9, 0x69, 0x72, 0x3b],
        }
    }
}

} // verus!
