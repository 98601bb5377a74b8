//! What the display controller makes of the operations that reach it.
//!
//! Nothing here is executable. The functions say which byte a frame carries
//! and where an instruction puts the cursor, and the lemmas hold the
//! driver's scripts against that.

use vstd::prelude::*;
use crate::bus::Step;
use crate::lcd1602a::{
    clear_steps, command_step, cursor_command, frame, init_steps, on_display, wait_step,
    CLEAR_DISPLAY, COLUMNS, DISPLAY_ON, ENTRY_MODE, INIT_CLEAR_WAIT, INSTRUCTION_WAIT, SECOND_ROW,
    SET_ADDRESS,
};

verus! {

/// A position on the display: row and column, counted from zero.
pub struct Position {
    pub row: u8,
    pub col: u8,
}

/// The first column of the first row.
pub open spec fn home() -> Position {
    Position { row: 0, col: 0 }
}

/// The byte that the controller assembles from a frame: the upper halves of
/// the first and of the third expander byte.
pub open spec fn payload(bytes: Seq<u8>) -> u8
    recommends
        bytes.len() == 4,
{
    (16 * (bytes[0] / 16) + bytes[2] / 16) as u8
}

/// Whether the register select line is high during a frame, so that the
/// controller takes the payload for a character.
pub open spec fn selects_character(bytes: Seq<u8>) -> bool
    recommends
        bytes.len() == 4,
{
    bytes[0] % 2 == 1
}

/// The position at which the instruction `cmd` puts the cursor wherever it
/// stood before, if it is such an instruction: clearing puts it home, and
/// setting a display address puts it at the position with that address.
pub open spec fn placement(cmd: u8) -> Option<Position> {
    if cmd == CLEAR_DISPLAY {
        Some(home())
    } else if SET_ADDRESS <= cmd < SET_ADDRESS + COLUMNS {
        Some(Position { row: 0, col: (cmd - SET_ADDRESS) as u8 })
    } else if SET_ADDRESS + SECOND_ROW <= cmd < SET_ADDRESS + SECOND_ROW + COLUMNS {
        Some(Position { row: 1, col: (cmd - SET_ADDRESS - SECOND_ROW) as u8 })
    } else {
        None
    }
}

/// Whether the instruction `cmd` leaves the cursor where it stands: entry
/// mode, display control and function set do.
pub open spec fn keeps_cursor(cmd: u8) -> bool {
    0x04 <= cmd < 0x10 || 0x20 <= cmd < 0x40
}

/// The cursor after one step on the bus, for the display at `address`. `None`
/// stands for a cursor that is not known, before or after. Waits and traffic
/// to other devices leave it alone, an instruction moves it as
/// [`placement`] and [`keeps_cursor`] say, and after anything else it is not
/// known.
pub open spec fn cursor_after_step(address: u8, before: Option<Position>, step: Step) -> Option<
    Position,
> {
    match step {
        Step::Delay { micros } => before,
        Step::Read { address: device, length } => if device == address {
            None
        } else {
            before
        },
        Step::Write { address: device, bytes } => if device != address {
            before
        } else if bytes.len() != 4 || selects_character(bytes) {
            None
        } else if placement(payload(bytes)) is Some {
            placement(payload(bytes))
        } else if keeps_cursor(payload(bytes)) {
            before
        } else {
            None
        },
    }
}

/// The cursor after the steps of `script`, in order.
pub open spec fn cursor_after(address: u8, before: Option<Position>, script: Seq<Step>) -> Option<
    Position,
>
    decreases script.len(),
{
    if script.len() == 0 {
        before
    } else {
        cursor_after_step(
            address,
            cursor_after(address, before, script.drop_last()),
            script.last(),
        )
    }
}

/// The controller reads back from a frame the byte that was framed, and
/// takes it for a character exactly when it was framed as one.
pub proof fn lemma_frame_payload(byte: u8, character: bool)
    ensures
        frame(byte, character).len() == 4,
        payload(frame(byte, character)) == byte,
        selects_character(frame(byte, character)) == character,
{
}

/// Running one script after another moves the cursor as the second does from
/// where the first left it.
pub proof fn lemma_cursor_after_both(
    address: u8,
    before: Option<Position>,
    first: Seq<Step>,
    second: Seq<Step>,
)
    ensures
        cursor_after(address, before, first + second) == cursor_after(
            address,
            cursor_after(address, before, first),
            second,
        ),
    decreases second.len(),
{
    if second.len() > 0 {
        assert((first + second).drop_last() =~= first + second.drop_last());
        lemma_cursor_after_both(address, before, first, second.drop_last());
    }
}

/// The cursor after one instruction sent to the display at `address`.
pub proof fn lemma_cursor_after_command(address: u8, before: Option<Position>, cmd: u8)
    ensures
        cursor_after_step(address, before, command_step(address, cmd)) == if placement(cmd)
            is Some {
            placement(cmd)
        } else if keeps_cursor(cmd) {
            before
        } else {
            None
        },
{
    lemma_frame_payload(cmd, false);
}

/// Clearing puts the cursor home wherever it stood, known or not.
pub proof fn lemma_clear_homes(address: u8, before: Option<Position>)
    ensures
        cursor_after(address, before, clear_steps(address)) == Some(home()),
{
    reveal_with_fuel(cursor_after, 3);
    lemma_cursor_after_command(address, before, CLEAR_DISPLAY);
}

/// Clearing twice in a row leaves the cursor where clearing once leaves it:
/// at home.
pub proof fn lemma_clear_twice(address: u8, before: Option<Position>)
    ensures
        cursor_after(address, before, clear_steps(address) + clear_steps(address)) == cursor_after(
            address,
            before,
            clear_steps(address),
        ),
        cursor_after(address, before, clear_steps(address)) == Some(home()),
{
    lemma_cursor_after_both(address, before, clear_steps(address), clear_steps(address));
    lemma_clear_homes(address, before);
    lemma_clear_homes(address, cursor_after(address, before, clear_steps(address)));
}

/// The instruction for a position on the display puts the cursor there,
/// wherever it stood.
pub proof fn lemma_put_cursor_lands(address: u8, before: Option<Position>, row: u8, col: u8)
    requires
        on_display(row, col),
    ensures
        cursor_after(address, before, seq![command_step(address, cursor_command(row, col))])
            == Some(Position { row, col }),
{
    reveal_with_fuel(cursor_after, 2);
    lemma_cursor_after_command(address, before, cursor_command(row, col));
}

/// A step added to a script moves the cursor from where the script left it.
pub proof fn lemma_cursor_after_push(
    address: u8,
    before: Option<Position>,
    script: Seq<Step>,
    step: Step,
)
    ensures
        cursor_after(address, before, script.push(step)) == cursor_after_step(
            address,
            cursor_after(address, before, script),
            step,
        ),
{
    assert(script.push(step).drop_last() =~= script);
}

/// Initialization leaves the cursor home wherever it stood, known or not.
pub proof fn lemma_init_homes(address: u8, before: Option<Position>)
    ensures
        cursor_after(address, before, init_steps(address)) == Some(home()),
{
    let script = init_steps(address);
    let head = script.subrange(0, 13);
    let cleared = head.push(command_step(address, CLEAR_DISPLAY));
    let settled = cleared.push(wait_step(INIT_CLEAR_WAIT));
    let moded = settled.push(command_step(address, ENTRY_MODE));
    let moded_settled = moded.push(wait_step(INSTRUCTION_WAIT));
    let lit = moded_settled.push(command_step(address, DISPLAY_ON));
    assert(script =~= lit.push(wait_step(INSTRUCTION_WAIT)));
    let start = cursor_after(address, before, head);
    lemma_cursor_after_push(address, before, head, command_step(address, CLEAR_DISPLAY));
    lemma_cursor_after_command(address, start, CLEAR_DISPLAY);
    lemma_cursor_after_push(address, before, cleared, wait_step(INIT_CLEAR_WAIT));
    lemma_cursor_after_push(address, before, settled, command_step(address, ENTRY_MODE));
    lemma_cursor_after_command(address, Some(home()), ENTRY_MODE);
    lemma_cursor_after_push(address, before, moded, wait_step(INSTRUCTION_WAIT));
    lemma_cursor_after_push(address, before, moded_settled, command_step(address, DISPLAY_ON));
    lemma_cursor_after_command(address, Some(home()), DISPLAY_ON);
    lemma_cursor_after_push(address, before, lit, wait_step(INSTRUCTION_WAIT));
}

} // verus!
