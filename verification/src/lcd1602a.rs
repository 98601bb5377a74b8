//! HD44780 display in 4-bit mode behind a PCF8574 expander.
//!
//! The expander's eight outputs are wired to the controller as follows: the
//! upper four carry a data nibble, bit 3 switches the backlight, bit 2 is the
//! enable line, bit 1 selects read or write (always write here) and bit 0 is
//! the register select line, low for an instruction and high for a character.
//! The controller latches the nibble when enable falls, so every nibble goes
//! out twice: once with enable high, once with enable low.

use vstd::prelude::*;
use crate::bus::{Error, Operation, Step, steps};

verus! {

/// Expander bit that keeps the backlight lit.
pub const BACKLIGHT: u8 = 0x08;

/// Expander bit wired to the controller's enable line.
pub const ENABLE: u8 = 0x04;

/// Expander bit wired to the controller's read line. The driver only writes.
pub const READ: u8 = 0x02;

/// Expander bit wired to the controller's register select line.
pub const REGISTER_SELECT: u8 = 0x01;

/// Instruction: select the 8-bit interface. Sent three times, it brings the
/// controller to a known state whatever state it was in.
pub const RESET: u8 = 0x30;

/// Instruction: select the 4-bit interface.
pub const FOUR_BIT: u8 = 0x20;

/// Instruction: 4-bit interface, two lines, 5x8 dot characters.
pub const FUNCTION_SET: u8 = 0x28;

/// Instruction: display, cursor and blinking off.
pub const DISPLAY_OFF: u8 = 0x08;

/// Instruction: blank the display and move the cursor home.
pub const CLEAR_DISPLAY: u8 = 0x01;

/// Instruction: the cursor moves right after each character, the display
/// does not shift.
pub const ENTRY_MODE: u8 = 0x06;

/// Instruction: display on, cursor and blinking off.
pub const DISPLAY_ON: u8 = 0x0C;

/// Instruction: move the cursor to the display address in the lower seven
/// bits.
pub const SET_ADDRESS: u8 = 0x80;

/// Display address of the first column of the second row.
pub const SECOND_ROW: u8 = 0x40;

/// Character code of the digit 0. The other digits follow it in order.
pub const DIGIT_ZERO: u8 = 48;

/// Number of rows.
pub const ROWS: u8 = 2;

/// Number of columns.
pub const COLUMNS: u8 = 16;

/// Microseconds the controller needs after power-on before it takes an
/// instruction.
pub const POWER_ON_MIN: u32 = 40_000;

/// Microseconds the controller needs after the first reset instruction.
pub const FIRST_RESET_MIN: u32 = 4_100;

/// Microseconds the controller needs after the second reset instruction.
pub const SECOND_RESET_MIN: u32 = 100;

/// Microseconds the controller needs to clear the display.
pub const CLEAR_MIN: u32 = 1_600;

/// Microseconds the controller needs for any other instruction: 37 at its
/// nominal clock, rounded up.
pub const INSTRUCTION_MIN: u32 = 40;

/// Wait before the first instruction: 50 ms, above the 40 ms that the supply
/// needs to settle.
pub const POWER_ON_WAIT: u32 = 50_000;

/// Wait after the first reset: 5 ms, above the 4.1 ms minimum.
pub const FIRST_RESET_WAIT: u32 = 5_000;

/// Wait after the second reset: 2 ms, far above the 100 us minimum.
pub const SECOND_RESET_WAIT: u32 = 2_000;

/// Wait after the third reset and after the switch to four bits: 10 ms, so
/// that the interface change has settled before the first two-nibble
/// instruction.
pub const INTERFACE_WAIT: u32 = 10_000;

/// Wait after an ordinary instruction during initialization: 1 ms.
pub const INSTRUCTION_WAIT: u32 = 1_000;

/// Wait after the clear instruction during initialization: 2 ms, above the
/// 1.6 ms that clearing takes.
pub const INIT_CLEAR_WAIT: u32 = 2_000;

/// Wait after the clear instruction in [`Lcd1602a::clear`]: 5 ms, the 1.6 ms
/// minimum rounded up generously.
pub const CLEAR_WAIT: u32 = 5_000;

/// One expander byte: a nibble for the controller in the upper half, and
/// in the lower half the backlight bit, the enable bit if `enable` is set and
/// the register select bit if `character` is.
pub open spec fn expander_byte(nibble: int, enable: bool, character: bool) -> u8
    recommends
        0 <= nibble < 16,
{
    (16 * nibble + BACKLIGHT + if enable {
        ENABLE as int
    } else {
        0
    } + if character {
        REGISTER_SELECT as int
    } else {
        0
    }) as u8
}

/// The four expander bytes that carry `byte` to the controller: its upper
/// nibble with enable high and then low, then its lower nibble likewise. The
/// register select line is high throughout for a character and low for an
/// instruction.
pub open spec fn frame(byte: u8, character: bool) -> Seq<u8> {
    seq![
        expander_byte(byte as int / 16, true, character),
        expander_byte(byte as int / 16, false, character),
        expander_byte(byte as int % 16, true, character),
        expander_byte(byte as int % 16, false, character),
    ]
}

/// The bus write that sends the instruction `cmd` to the display at `address`.
pub open spec fn command_step(address: u8, cmd: u8) -> Step {
    Step::Write { address, bytes: frame(cmd, false) }
}

/// The bus write that sends the character code `data` to the display at
/// `address`.
pub open spec fn data_step(address: u8, data: u8) -> Step {
    Step::Write { address, bytes: frame(data, true) }
}

/// A wait of `micros` microseconds.
pub open spec fn wait_step(micros: u32) -> Step {
    Step::Delay { micros: micros as nat }
}

/// The initialization sequence for the display at `address`: the power-on
/// wait, then nine instructions, each followed by its wait.
pub open spec fn init_steps(address: u8) -> Seq<Step> {
    seq![
        wait_step(POWER_ON_WAIT),
        command_step(address, RESET),
        wait_step(FIRST_RESET_WAIT),
        command_step(address, RESET),
        wait_step(SECOND_RESET_WAIT),
        command_step(address, RESET),
        wait_step(INTERFACE_WAIT),
        command_step(address, FOUR_BIT),
        wait_step(INTERFACE_WAIT),
        command_step(address, FUNCTION_SET),
        wait_step(INSTRUCTION_WAIT),
        command_step(address, DISPLAY_OFF),
        wait_step(INSTRUCTION_WAIT),
        command_step(address, CLEAR_DISPLAY),
        wait_step(INIT_CLEAR_WAIT),
        command_step(address, ENTRY_MODE),
        wait_step(INSTRUCTION_WAIT),
        command_step(address, DISPLAY_ON),
        wait_step(INSTRUCTION_WAIT),
    ]
}

/// Clearing the display at `address`: the instruction and its wait.
pub open spec fn clear_steps(address: u8) -> Seq<Step> {
    seq![command_step(address, CLEAR_DISPLAY), wait_step(CLEAR_WAIT)]
}

/// Whether `row` and `col` name a cell of the display.
pub open spec fn on_display(row: u8, col: u8) -> bool {
    row < ROWS && col < COLUMNS
}

/// The instruction that moves the cursor to `row` and `col`: 0x80 plus the
/// column in the first row, 0xC0 plus the column in the second.
pub open spec fn cursor_command(row: u8, col: u8) -> u8
    recommends
        on_display(row, col),
{
    (SET_ADDRESS + SECOND_ROW * row + col) as u8
}

/// The character code sent for `c`: the low eight bits of its code point.
/// For an ASCII character that is the character itself.
pub open spec fn char_code(c: char) -> u8 {
    (c as u32 % 256) as u8
}

/// One character write per character of `text`, in order.
pub open spec fn text_steps(address: u8, text: Seq<char>) -> Seq<Step> {
    text.map_values(|c: char| data_step(address, char_code(c)))
}

/// The decimal digits of `n`, most significant first, without leading
/// zeros. Zero has the one digit 0.
pub open spec fn decimal_digits(n: nat) -> Seq<u8>
    decreases n,
{
    if n < 10 {
        seq![n as u8]
    } else {
        decimal_digits(n / 10).push((n % 10) as u8)
    }
}

/// The number that `digits` spell in decimal, most significant first.
pub open spec fn decimal_value(digits: Seq<u8>) -> nat
    decreases digits.len(),
{
    if digits.len() == 0 {
        0
    } else {
        10 * decimal_value(digits.drop_last()) + digits.last() as nat
    }
}

/// The digits of a number are at least one, each is below ten, they spell
/// that number, and the first is zero only for zero itself.
pub proof fn lemma_decimal_digits(n: nat)
    ensures
        decimal_digits(n).len() >= 1,
        forall|i: int| 0 <= i < decimal_digits(n).len() ==> #[trigger] decimal_digits(n)[i] < 10,
        decimal_value(decimal_digits(n)) == n,
        n > 0 ==> decimal_digits(n)[0] != 0,
    decreases n,
{
    if n < 10 {
        reveal_with_fuel(decimal_value, 2);
    } else {
        lemma_decimal_digits(n / 10);
        let shorter = decimal_digits(n / 10);
        assert(decimal_digits(n).drop_last() =~= shorter);
    }
}

/// A `u32` has at most ten digits.
pub proof fn lemma_decimal_digits_length(n: u32)
    ensures
        decimal_digits(n as nat).len() <= 10,
{
    reveal_with_fuel(decimal_digits, 11);
}

/// The ASCII code of the decimal digit `digit`.
pub open spec fn digit_code(digit: u8) -> u8
    recommends
        digit < 10,
{
    (DIGIT_ZERO + digit) as u8
}

/// One character write per decimal digit of `n`, most significant first.
pub open spec fn number_steps(address: u8, n: u32) -> Seq<Step> {
    decimal_digits(n as nat).map_values(|digit: u8| data_step(address, digit_code(digit)))
}

/// The control bits of an instruction and of a character, as numbers.
proof fn lemma_control_bits()
    by (bit_vector)
    ensures
        0x08u8 | 0x01u8 == 9,
{
}

/// What the masks and shifts of the framing compute, in arithmetic.
proof fn lemma_frame_bits(byte: u8, control: u8)
    by (bit_vector)
    requires
        control == 8 || control == 9,
    ensures
        (byte & 0xF0) | 0x04 | control == 16 * (byte / 16) + 4 + control,
        (byte & 0xF0) | control == 16 * (byte / 16) + control,
        ((byte << 4) & 0xF0) | 0x04 | control == 16 * (byte % 16) + 4 + control,
        ((byte << 4) & 0xF0) | control == 16 * (byte % 16) + control,
{
}

/// Where the column has four bits, or-ing it into a row's instruction adds
/// it.
proof fn lemma_address_bits(col: u8)
    by (bit_vector)
    requires
        col < 16,
    ensures
        0x80u8 | col == 0x80 + col,
        0x80u8 | 0x40u8 | col == 0x80 + 0x40 + col,
{
}

/// The digits of `n` that stand before those already found: none once
/// nothing is left of it.
spec fn leading_digits(n: nat) -> Seq<u8> {
    if n == 0 {
        Seq::empty()
    } else {
        decimal_digits(n)
    }
}

/// The first `count` entries of `found` in reverse order.
spec fn newest_first(found: Seq<u8>, count: nat) -> Seq<u8> {
    Seq::new(count, |i: int| found[count - 1 - i])
}

/// The largest value that can be left of a `u32` once `count` of its digits
/// are taken off.
spec fn headroom(count: nat) -> nat
    decreases count,
{
    if count == 0 {
        0xFFFF_FFFF
    } else {
        headroom((count - 1) as nat) / 10
    }
}

/// The nine instructions of the initialization, in order.
pub open spec fn init_commands() -> Seq<u8> {
    seq![
        RESET,
        RESET,
        RESET,
        FOUR_BIT,
        FUNCTION_SET,
        DISPLAY_OFF,
        CLEAR_DISPLAY,
        ENTRY_MODE,
        DISPLAY_ON,
    ]
}

/// The least wait, in microseconds, that the controller needs after each of
/// the nine instructions of the initialization.
pub open spec fn init_minimum_waits() -> Seq<nat> {
    seq![
        FIRST_RESET_MIN as nat,
        SECOND_RESET_MIN as nat,
        INSTRUCTION_MIN as nat,
        INSTRUCTION_MIN as nat,
        INSTRUCTION_MIN as nat,
        INSTRUCTION_MIN as nat,
        CLEAR_MIN as nat,
        INSTRUCTION_MIN as nat,
        INSTRUCTION_MIN as nat,
    ]
}

/// The layout of a frame, bit by bit. The upper four bits are the upper half
/// of the byte in the first two expander bytes and its lower half in the last
/// two. Enable is high in the first and third and low in the second and
/// fourth. The backlight bit is set and the read bit is clear in all four. The
/// frame of a character differs from the frame of the same byte as an
/// instruction in the register select bit of every expander byte, and in
/// nothing else.
pub proof fn lemma_frame_layout(byte: u8)
    ensures
        frame(byte, false).len() == 4,
        frame(byte, true).len() == 4,
        forall|i: int|
            0 <= i < 4 ==> {
                &&& #[trigger] frame(byte, false)[i] & 0xF0 == if i < 2 {
                    byte & 0xF0
                } else {
                    (byte << 4) & 0xF0
                }
                &&& frame(byte, false)[i] & ENABLE == if i % 2 == 0 {
                    ENABLE
                } else {
                    0
                }
                &&& frame(byte, false)[i] & BACKLIGHT == BACKLIGHT
                &&& frame(byte, false)[i] & READ == 0
                &&& frame(byte, false)[i] & REGISTER_SELECT == 0
                &&& frame(byte, true)[i] == frame(byte, false)[i] | REGISTER_SELECT
                &&& frame(byte, true)[i] ^ frame(byte, false)[i] == REGISTER_SELECT
            },
{
    let b0 = frame(byte, false)[0];
    let b1 = frame(byte, false)[1];
    let b2 = frame(byte, false)[2];
    let b3 = frame(byte, false)[3];
    let c0 = frame(byte, true)[0];
    let c1 = frame(byte, true)[1];
    let c2 = frame(byte, true)[2];
    let c3 = frame(byte, true)[3];
    assert(b0 & 0xF0 == byte & 0xF0 && b0 & 0x04 == 0x04 && b0 & 0x08 == 0x08 && b0 & 0x02 == 0
        && b0 & 0x01 == 0 && c0 == b0 | 0x01 && c0 ^ b0 == 0x01) by (bit_vector)
        requires
            b0 == 16 * (byte / 16) + 12,
            c0 == 16 * (byte / 16) + 13,
    ;
    assert(b1 & 0xF0 == byte & 0xF0 && b1 & 0x04 == 0 && b1 & 0x08 == 0x08 && b1 & 0x02 == 0 && b1
        & 0x01 == 0 && c1 == b1 | 0x01 && c1 ^ b1 == 0x01) by (bit_vector)
        requires
            b1 == 16 * (byte / 16) + 8,
            c1 == 16 * (byte / 16) + 9,
    ;
    assert(b2 & 0xF0 == (byte << 4) & 0xF0 && b2 & 0x04 == 0x04 && b2 & 0x08 == 0x08 && b2 & 0x02
        == 0 && b2 & 0x01 == 0 && c2 == b2 | 0x01 && c2 ^ b2 == 0x01) by (bit_vector)
        requires
            b2 == 16 * (byte % 16) + 12,
            c2 == 16 * (byte % 16) + 13,
    ;
    assert(b3 & 0xF0 == (byte << 4) & 0xF0 && b3 & 0x04 == 0 && b3 & 0x08 == 0x08 && b3 & 0x02 == 0
        && b3 & 0x01 == 0 && c3 == b3 | 0x01 && c3 ^ b3 == 0x01) by (bit_vector)
        requires
            b3 == 16 * (byte % 16) + 8,
            c3 == 16 * (byte % 16) + 9,
    ;
}

/// Initialization waits for the supply to settle, then sends its nine
/// instructions in order, and after each waits at least as long as the
/// controller needs before the next.
pub proof fn lemma_init_sequence(address: u8)
    ensures
        init_steps(address).len() == 19,
        init_steps(address)[0] == wait_step(POWER_ON_WAIT),
        POWER_ON_WAIT >= POWER_ON_MIN,
        forall|i: int|
            0 <= i < 9 ==> {
                &&& #[trigger] init_steps(address)[2 * i + 1] == command_step(
                    address,
                    init_commands()[i],
                )
                &&& init_steps(address)[2 * i + 2] matches Step::Delay { micros }
                &&& micros >= init_minimum_waits()[i]
            },
{
}

/// Clearing waits at least as long as the controller needs for it.
pub proof fn lemma_clear_wait(address: u8)
    ensures
        clear_steps(address).len() == 2,
        clear_steps(address)[0] == command_step(address, CLEAR_DISPLAY),
        clear_steps(address)[1] matches Step::Delay { micros } && micros >= CLEAR_MIN,
{
}

/// A display at a fixed bus address.
#[derive(Debug, Clone, Copy, PartialEq, Eq)]
pub struct Lcd1602a {
    address: u8,
}

impl Lcd1602a {
    /// The bus address of the expander.
    pub closed spec fn address(&self) -> u8 {
        self.address
    }

    /// A driver for the display whose expander answers at `address`.
    pub fn new(address: u8) -> (lcd: Self)
        ensures
            lcd.address() == address,
    {
        Lcd1602a { address }
    }

    fn transfer(&self, byte: u8, character: bool) -> (operation: Operation)
        ensures
            operation@ == (Step::Write { address: self.address(), bytes: frame(byte, character) }),
    {
        let control: u8 = if character {
            BACKLIGHT | REGISTER_SELECT
        } else {
            BACKLIGHT
        };
        let upper: u8 = byte & 0xF0;
        let lower: u8 = (byte << 4) & 0xF0;
        let bytes: Vec<u8> = vec![
            upper | ENABLE | control,
            upper | control,
            lower | ENABLE | control,
            lower | control,
        ];
        proof {
            lemma_control_bits();
            lemma_frame_bits(byte, control);
        }
        Operation::Write { address: self.address, bytes }
    }

    /// Sends the instruction `cmd`.
    pub fn send_command(&self, cmd: u8) -> (operation: Operation)
        ensures
            operation@ == command_step(self.address(), cmd),
    {
        self.transfer(cmd, false)
    }

    /// Sends the character code `data`.
    pub fn send_data(&self, data: u8) -> (operation: Operation)
        ensures
            operation@ == data_step(self.address(), data),
    {
        self.transfer(data, true)
    }

    /// Brings the controller from whatever state it is in to the 4-bit
    /// interface with two lines, the display on and blank, and the cursor
    /// home.
    pub fn init(&self) -> (script: Vec<Operation>)
        ensures
            steps(script@) == init_steps(self.address()),
    {
        let mut script: Vec<Operation> = Vec::new();
        script.push(Operation::Delay { micros: POWER_ON_WAIT });

        script.push(self.send_command(RESET));
        script.push(Operation::Delay { micros: FIRST_RESET_WAIT });

        script.push(self.send_command(RESET));
        script.push(Operation::Delay { micros: SECOND_RESET_WAIT });

        script.push(self.send_command(RESET));
        script.push(Operation::Delay { micros: INTERFACE_WAIT });

        script.push(self.send_command(FOUR_BIT));
        script.push(Operation::Delay { micros: INTERFACE_WAIT });

        script.push(self.send_command(FUNCTION_SET));
        script.push(Operation::Delay { micros: INSTRUCTION_WAIT });

        script.push(self.send_command(DISPLAY_OFF));
        script.push(Operation::Delay { micros: INSTRUCTION_WAIT });

        script.push(self.send_command(CLEAR_DISPLAY));
        script.push(Operation::Delay { micros: INIT_CLEAR_WAIT });

        script.push(self.send_command(ENTRY_MODE));
        script.push(Operation::Delay { micros: INSTRUCTION_WAIT });

        script.push(self.send_command(DISPLAY_ON));
        script.push(Operation::Delay { micros: INSTRUCTION_WAIT });

        script
    }

    /// Blanks the display and moves the cursor home.
    pub fn clear(&self) -> (script: Vec<Operation>)
        ensures
            steps(script@) == clear_steps(self.address()),
    {
        let mut script: Vec<Operation> = Vec::new();
        script.push(self.send_command(CLEAR_DISPLAY));
        script.push(Operation::Delay { micros: CLEAR_WAIT });
        script
    }

    /// Moves the cursor to `row` and `col`, both counted from zero. Outside
    /// the two rows of sixteen columns nothing is sent.
    pub fn put_cursor(&self, row: u8, col: u8) -> (result: Result<Operation, Error>)
        ensures
            on_display(row, col) ==> (result matches Ok(operation) && operation@ == command_step(
                self.address(),
                cursor_command(row, col),
            )),
            !on_display(row, col) ==> result == Err::<Operation, Error>(Error::InvalidParameter),
    {
        if col >= COLUMNS || row >= ROWS {
            return Err(Error::InvalidParameter);
        }
        proof {
            lemma_address_bits(col);
        }
        if row == 0 {
            Ok(self.send_command(SET_ADDRESS | col))
        } else {
            Ok(self.send_command(SET_ADDRESS | SECOND_ROW | col))
        }
    }

    /// Writes `n` in decimal at the cursor, most significant digit first.
    /// Zero is written as the single digit 0.
    pub fn send_number(&self, n: u32) -> (script: Vec<Operation>)
        ensures
            steps(script@) == number_steps(self.address(), n),
    {
        // A u32 has at most ten decimal digits. They are found least
        // significant first and sent in reverse.
        let mut digits: [u8; 10] = [0u8; 10];
        digits[0] = (n % 10) as u8;
        let mut num: u32 = n / 10;
        let mut count: usize = 1;
        proof {
            reveal_with_fuel(headroom, 11);
        }
        while num > 0
            invariant
                1 <= count <= 10,
                num <= headroom(count as nat),
                forall|i: int| 0 <= i < count ==> digits[i] < 10,
                decimal_digits(n as nat) == leading_digits(num as nat) + newest_first(
                    digits@,
                    count as nat,
                ),
            decreases num,
        {
            proof {
                reveal_with_fuel(headroom, 11);
            }
            digits[count] = (num % 10) as u8;
            num = num / 10;
            count = count + 1;
        }
        let ghost total = count;
        let mut script: Vec<Operation> = Vec::new();
        while count > 0
            invariant
                count <= total <= 10,
                forall|i: int| 0 <= i < total ==> digits[i] < 10,
                steps(script@) == newest_first(digits@, total as nat).subrange(
                    0,
                    total - count,
                ).map_values(|digit: u8| data_step(self.address(), digit_code(digit))),
            decreases count,
        {
            count = count - 1;
            let ghost sent = steps(script@);
            script.push(self.send_data(DIGIT_ZERO + digits[count]));
            assert(steps(script@) =~= sent.push(
                data_step(self.address(), digit_code(digits[count as int])),
            ));
        }
        script
    }

    /// Writes `s` at the cursor, one character code per character.
    pub fn send_string(&self, s: &str) -> (script: Vec<Operation>)
        ensures
            steps(script@) == text_steps(self.address(), s@),
    {
        let mut script: Vec<Operation> = Vec::new();
        for c in chars: s.chars()
            invariant
                chars.seq() == s@,
                steps(script@) == text_steps(self.address(), s@.subrange(0, chars.index())),
        {
            let ghost sent = steps(script@);
            let point: u32 = c as u32;
            assert(point & 0xFF == point % 256) by (bit_vector);
            script.push(self.send_data((point & 0xFF) as u8));
            assert(steps(script@) =~= sent.push(data_step(self.address(), char_code(c))));
        }
        script
    }
}

} // verus!
