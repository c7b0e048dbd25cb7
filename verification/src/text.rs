//! The registers as text.

use vstd::prelude::*;
use vstd::string::StringExecFns;

verus! {

/// The character for a value below sixteen: a decimal digit or a capital
/// letter from A to F.
pub open spec fn digit(value: int) -> char {
    "0123456789ABCDEF"@[value]
}

/// The two hexadecimal digits of a byte.
pub open spec fn hex_byte(value: u8) -> Seq<char> {
    seq![digit(value as int / 16), digit(value as int % 16)]
}

/// The name of register `x`: a `V` and the register's number in two decimal
/// digits.
pub open spec fn label(x: int) -> Seq<char> {
    "V"@ + seq![digit(x / 10), digit(x % 10)]
}

/// The name of register `x`, a colon and the register's value.
pub open spec fn cell(registers: Seq<u8>, x: int) -> Seq<char> {
    label(x) + ": "@ + hex_byte(registers[x])
}

/// Four registers from register `4 * row` on, between square brackets.
pub open spec fn line(registers: Seq<u8>, row: int) -> Seq<char> {
    "[ "@ + cell(registers, 4 * row) + " "@ + cell(registers, 4 * row + 1) + " "@ + cell(
        registers,
        4 * row + 2,
    ) + " "@ + cell(registers, 4 * row + 3) + " ]"@
}

/// All sixteen registers, four to a line.
pub open spec fn register_dump(registers: Seq<u8>) -> Seq<char> {
    line(registers, 0) + "\n"@ + line(registers, 1) + "\n"@ + line(registers, 2) + "\n"@ + line(
        registers,
        3,
    )
}

/// The text of one digit.
fn digit_text(value: u8) -> (text: &'static str)
    requires
        value < 16,
    ensures
        text@ == seq![digit(value as int)],
{
    proof {
        reveal_strlit("0123456789ABCDEF");
        reveal_strlit("0");
        reveal_strlit("1");
        reveal_strlit("2");
        reveal_strlit("3");
        reveal_strlit("4");
        reveal_strlit("5");
        reveal_strlit("6");
        reveal_strlit("7");
        reveal_strlit("8");
        reveal_strlit("9");
        reveal_strlit("A");
        reveal_strlit("B");
        reveal_strlit("C");
        reveal_strlit("D");
        reveal_strlit("E");
        reveal_strlit("F");
    }
    let text = match value {
        0 => "0",
        1 => "1",
        2 => "2",
        3 => "3",
        4 => "4",
        5 => "5",
        6 => "6",
        7 => "7",
        8 => "8",
        9 => "9",
        10 => "A",
        11 => "B",
        12 => "C",
        13 => "D",
        14 => "E",
        _ => "F",
    };
    assert(text@ =~= seq![digit(value as int)]);
    text
}

/// Appends the name and value of register `x`.
fn append_cell(text: &mut String, registers: &[u8; 16], x: usize)
    requires
        x < 16,
    ensures
        final(text)@ == old(text)@ + cell(registers@, x as int),
{
    let value = registers[x];
    text.append("V");
    text.append(digit_text((x / 10) as u8));
    text.append(digit_text((x % 10) as u8));
    text.append(": ");
    text.append(digit_text(value / 16));
    text.append(digit_text(value % 16));
    assert(text@ =~= old(text)@ + cell(registers@, x as int));
}

/// Appends the line of the four registers from register `4 * row` on.
fn append_line(text: &mut String, registers: &[u8; 16], row: usize)
    requires
        row < 4,
    ensures
        final(text)@ == old(text)@ + line(registers@, row as int),
{
    text.append("[ ");
    append_cell(text, registers, 4 * row);
    text.append(" ");
    append_cell(text, registers, 4 * row + 1);
    text.append(" ");
    append_cell(text, registers, 4 * row + 2);
    text.append(" ");
    append_cell(text, registers, 4 * row + 3);
    text.append(" ]");
    assert(text@ =~= old(text)@ + line(registers@, row as int));
}

/// The sixteen registers as text, for a person to read.
pub fn dump_registers(registers: &[u8; 16]) -> (text: String)
    ensures
        text@ == register_dump(registers@),
{
    let mut text = String::new();
    append_line(&mut text, registers, 0);
    text.append("\n");
    append_line(&mut text, registers, 1);
    text.append("\n");
    append_line(&mut text, registers, 2);
    text.append("\n");
    append_line(&mut text, registers, 3);
    assert(text@ =~= register_dump(registers@));
    text
}

} // verus!
