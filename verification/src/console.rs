//! High-level EFI console interface
//!
//! Every function here works on the console devices of a system table that the
//! caller hands in, and demands that the device it needs is there.

use crate::boot_services::BootSlots;
use crate::protocols::text::{
    spec_attribute, spec_output_answer, spec_text_result, spec_units, text_transcript_admissible,
    Color, SimpleTextInput, SimpleTextOutput, TextInputSlots, TextOutputSlots,
};
use crate::system_table::SystemTable;
use crate::types::{spec_outcome, Bool, Status};
use vstd::prelude::*;

verus! {

/// The console output device of a system table.
pub open spec fn spec_con_out<B: BootSlots, I: TextInputSlots, O: TextOutputSlots>(
    system_table: &SystemTable<B, I, O>,
) -> SimpleTextOutput<O> {
    system_table.con_out.spec_ptr().spec_referent().unwrap()
}

/// The console input device of a system table.
pub open spec fn spec_con_in<B: BootSlots, I: TextInputSlots, O: TextOutputSlots>(
    system_table: &SystemTable<B, I, O>,
) -> SimpleTextInput<I> {
    system_table.con_in.spec_ptr().spec_referent().unwrap()
}

/// Clears the console
pub fn clear<B: BootSlots, I: TextInputSlots, O: TextOutputSlots>(
    system_table: &SystemTable<B, I, O>,
) -> (r: Result<(), Status>)
    requires
        !system_table.con_out.spec_is_null(),
    ensures
        exists|status: Status|
            call_ensures(O::clear_screen, (&spec_con_out(system_table).slots,), status) && r
                == spec_outcome(status, ()),
{
    system_table.con_out.deref().clear_screen()
}

/// What two calls made in turn amount to, given their answers: the second call is
/// made only where the first did not fail, and then decides.
pub open spec fn spec_in_turn(first: Status, second: Status) -> Result<(), Status> {
    if first.is_error() {
        Err(first)
    } else {
        spec_outcome(second, ())
    }
}

/// Configures the console cursor's position and visibility
///
/// The cursor is moved first. Where that fails the error is returned and the
/// visibility is left as it was.
pub fn configure_cursor<B: BootSlots, I: TextInputSlots, O: TextOutputSlots>(
    system_table: &SystemTable<B, I, O>,
    column: usize,
    row: usize,
    visible: bool,
) -> (r: Result<(), Status>)
    requires
        !system_table.con_out.spec_is_null(),
    ensures
        exists|moved: Status, shown: Status|
            call_ensures(
                O::set_cursor_position,
                (&spec_con_out(system_table).slots, column, row),
                moved,
            ) && (!moved.is_error() ==> call_ensures(
                O::enable_cursor,
                (&spec_con_out(system_table).slots, Bool::spec_of(visible)),
                shown,
            )) && r == spec_in_turn(moved, shown),
{
    let con_out = system_table.con_out.deref();
    assert(*con_out == spec_con_out(system_table));
    let first = con_out.set_cursor_position(column, row);
    let ghost moved = choose|status: Status|
        call_ensures(O::set_cursor_position, (&con_out.slots, column, row), status) && first
            == spec_outcome(status, ());
    match first {
        Err(e) => {
            assert(first == spec_in_turn(moved, moved));
            Err(e)
        },
        Ok(_) => {
            let second = con_out.enable_cursor(visible);
            let ghost shown = choose|status: Status|
                call_ensures(O::enable_cursor, (&con_out.slots, Bool::spec_of(visible)), status)
                    && second == spec_outcome(status, ());
            assert(second == spec_in_turn(moved, shown));
            second
        },
    }
}

/// Resets the UEFI console devices
///
/// The input device is reset first, then the output device, neither with
/// extended verification. Where the first reset fails the error is returned and
/// the output device is left as it was.
pub fn reset<B: BootSlots, I: TextInputSlots, O: TextOutputSlots>(
    system_table: &SystemTable<B, I, O>,
) -> (r: Result<(), Status>)
    requires
        !system_table.con_in.spec_is_null(),
        !system_table.con_out.spec_is_null(),
    ensures
        exists|input: Status, output: Status|
            call_ensures(I::reset, (&spec_con_in(system_table).slots, Bool::False), input) && (
            !input.is_error() ==> call_ensures(
                O::reset,
                (&spec_con_out(system_table).slots, Bool::False),
                output,
            )) && r == spec_in_turn(input, output),
{
    let con_in = system_table.con_in.deref();
    let con_out = system_table.con_out.deref();
    assert(*con_in == spec_con_in(system_table));
    assert(*con_out == spec_con_out(system_table));
    let first = con_in.reset(false);
    let ghost input = choose|status: Status|
        call_ensures(I::reset, (&con_in.slots, Bool::False), status) && first == spec_outcome(
            status,
            (),
        );
    match first {
        Err(e) => {
            assert(first == spec_in_turn(input, input));
            Err(e)
        },
        Ok(_) => {
            let second = con_out.reset(false);
            let ghost output = choose|status: Status|
                call_ensures(O::reset, (&con_out.slots, Bool::False), status) && second
                    == spec_outcome(status, ());
            assert(second == spec_in_turn(input, output));
            second
        },
    }
}

/// Sets the colors used by the EFI console
///
/// A background that is not one of the eight dark colors is refused with
/// `InvalidParameter`.
pub fn set_colors<B: BootSlots, I: TextInputSlots, O: TextOutputSlots>(
    system_table: &SystemTable<B, I, O>,
    foreground: Color,
    background: Color,
) -> (r: Result<(), Status>)
    requires
        !system_table.con_out.spec_is_null(),
    ensures
        !background.spec_is_background() ==> r == Err::<(), Status>(Status::InvalidParameter),
        background.spec_is_background() ==> exists|status: Status|
            call_ensures(
                O::set_attribute,
                (&spec_con_out(system_table).slots, spec_attribute(foreground, background)),
                status,
            ) && r == spec_outcome(status, ()),
{
    system_table.con_out.deref().set_attribute(foreground, background)
}

/// Sets the output mode of the device
pub fn set_mode<B: BootSlots, I: TextInputSlots, O: TextOutputSlots>(
    system_table: &SystemTable<B, I, O>,
    mode_number: usize,
) -> (r: Result<(), Status>)
    requires
        !system_table.con_out.spec_is_null(),
    ensures
        exists|status: Status|
            call_ensures(O::set_mode, (&spec_con_out(system_table).slots, mode_number), status)
                && r == spec_outcome(status, ()),
{
    system_table.con_out.deref().set_mode(mode_number)
}

/// Writes the given text to the console
pub fn write<B: BootSlots, I: TextInputSlots, O: TextOutputSlots>(
    system_table: &SystemTable<B, I, O>,
    s: &str,
) -> (r: Result<(), Status>)
    requires
        !system_table.con_out.spec_is_null(),
    ensures
        exists|statuses: Seq<Status>| #[trigger]
            text_transcript_admissible(
                spec_output_answer(&spec_con_out(system_table).slots),
                spec_units(s@),
                statuses,
            ) && r == spec_text_result(statuses),
{
    let con_out = system_table.con_out.deref();
    assert(*con_out == spec_con_out(system_table));
    con_out.output_string(s)
}

/// Writer for the EFI console
pub struct Writer<'a, O: TextOutputSlots> {
    pub con_out: &'a SimpleTextOutput<O>,
}

impl<'a, O: TextOutputSlots> Writer<'a, O> {
    /// Writes `s` to the console, as `output_string` sends it through the device's
    /// output slot. An error of the console is not surfaced: the result is `Ok`.
    pub fn write_str(&mut self, s: &str) -> (r: Result<(), Status>)
        ensures
            exists|statuses: Seq<Status>| #[trigger]
                text_transcript_admissible(
                    spec_output_answer(&old(self).con_out.slots),
                    spec_units(s@),
                    statuses,
                ),
            r == Ok::<(), Status>(()),
            *final(self) == *old(self),
    {
        let _ = self.con_out.output_string(s);
        Ok(())
    }
}

} // verus!
