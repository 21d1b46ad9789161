//! The text of a register dump: every value as `0x` and its hexadecimal
//! digits, right-aligned in a field of eighteen characters.

use vstd::prelude::*;
use vstd::string::StringExecFns;
use crate::csr::{MCAUSE, MEPC, MSTATUS, MTVEC, SCAUSE, SEPC, SSTATUS, STVEC};
use crate::semantics::CpuView;

verus! {

/// The character for a hexadecimal digit, lower case.
pub open spec fn hex_digit(digit: u64) -> char
    recommends
        digit < 16,
{
    if digit < 10 {
        ('0' as u8 + digit) as char
    } else {
        ('a' as u8 + (digit - 10)) as char
    }
}

/// The hexadecimal digits of `value`, most significant first, with no leading
/// zero but for zero itself.
pub open spec fn hex(value: u64) -> Seq<char>
    decreases value,
{
    if value < 16 {
        seq![hex_digit(value)]
    } else {
        hex(value / 16).push(hex_digit(value % 16))
    }
}

/// `count` spaces.
pub open spec fn spaces(count: nat) -> Seq<char> {
    Seq::new(count, |i: int| ' ')
}

/// `value` as a dump shows it: `0x` and the digits, with spaces before them to
/// a width of eighteen.
pub open spec fn hex_field(value: u64) -> Seq<char> {
    spaces((16 - hex(value).len()) as nat) + "0x"@ + hex(value)
}

/// The two decimal digits of a register index.
pub open spec fn index_field(index: int) -> Seq<char>
    recommends
        0 <= index < 100,
{
    seq![hex_digit((index / 10) as u64), hex_digit((index % 10) as u64)]
}

/// The names of the integer registers in the calling convention, each four
/// characters wide.
pub open spec fn abi_names() -> Seq<Seq<char>> {
    seq![
        "zero"@,
        " ra "@,
        " sp "@,
        " gp "@,
        " tp "@,
        " t0 "@,
        " t1 "@,
        " t2 "@,
        " s0 "@,
        " s1 "@,
        " a0 "@,
        " a1 "@,
        " a2 "@,
        " a3 "@,
        " a4 "@,
        " a5 "@,
        " a6 "@,
        " a7 "@,
        " s2 "@,
        " s3 "@,
        " s4 "@,
        " s5 "@,
        " s6 "@,
        " s7 "@,
        " s8 "@,
        " s9 "@,
        " s10"@,
        " s11"@,
        " t3 "@,
        " t4 "@,
        " t5 "@,
        " t6 "@,
    ]
}

/// One register in a dump: `x`, its index, its name in brackets, `=`, its
/// value.
pub open spec fn register_entry(registers: Seq<u64>, index: int) -> Seq<char> {
    "x"@ + index_field(index) + "("@ + abi_names()[index] + ")="@ + hex_field(registers[index])
}

/// Four registers from `index` on, with a space between them.
pub open spec fn register_line(registers: Seq<u64>, index: int) -> Seq<char> {
    register_entry(registers, index) + " "@ + register_entry(registers, index + 1) + " "@
        + register_entry(registers, index + 2) + " "@ + register_entry(registers, index + 3)
}

/// The first `count` lines of a register dump, each with a line break before
/// it.
pub open spec fn register_lines(registers: Seq<u64>, count: nat) -> Seq<char>
    decreases count,
{
    if count == 0 {
        Seq::empty()
    } else {
        register_lines(registers, (count - 1) as nat) + "\n"@ + register_line(
            registers,
            4 * (count - 1),
        )
    }
}

/// The dump of the 32 integer registers: eight lines of four.
pub open spec fn registers_text(registers: Seq<u64>) -> Seq<char> {
    register_lines(registers, 8)
}

/// One CSR in a dump: its name, `=`, its value.
pub open spec fn csr_entry(name: Seq<char>, value: u64) -> Seq<char> {
    name + "="@ + hex_field(value)
}

/// The dump of the trap registers: the machine ones on one line, the
/// supervisor ones on the next.
pub open spec fn csrs_text(state: CpuView) -> Seq<char> {
    csr_entry("mstatus"@, state.load_csr(MSTATUS as int)) + " "@ + csr_entry(
        "mtvec"@,
        state.load_csr(MTVEC as int),
    ) + " "@ + csr_entry("mepc"@, state.load_csr(MEPC as int)) + " "@ + csr_entry(
        "mcause"@,
        state.load_csr(MCAUSE as int),
    ) + "\n"@ + csr_entry("sstatus"@, state.load_csr(SSTATUS as int)) + " "@ + csr_entry(
        "stvec"@,
        state.load_csr(STVEC as int),
    ) + " "@ + csr_entry("sepc"@, state.load_csr(SEPC as int)) + " "@ + csr_entry(
        "scause"@,
        state.load_csr(SCAUSE as int),
    )
}

fn digit_str(digit: u64) -> (text: &'static str)
    requires
        digit < 16,
    ensures
        text@ == seq![hex_digit(digit)],
{
    proof {
        reveal_strlit("0");
        reveal_strlit("1");
        reveal_strlit("2");
        reveal_strlit("3");
        reveal_strlit("4");
        reveal_strlit("5");
        reveal_strlit("6");
        reveal_strlit("7");
        reveal_strlit("8");
        reveal_strlit("9");
        reveal_strlit("a");
        reveal_strlit("b");
        reveal_strlit("c");
        reveal_strlit("d");
        reveal_strlit("e");
        reveal_strlit("f");
    }
    let text = match digit {
        0 => "0",
        1 => "1",
        2 => "2",
        3 => "3",
        4 => "4",
        5 => "5",
        6 => "6",
        7 => "7",
        8 => "8",
        9 => "9",
        10 => "a",
        11 => "b",
        12 => "c",
        13 => "d",
        14 => "e",
        _ => "f",
    };
    assert(text@ =~= seq![hex_digit(digit)]);
    text
}

proof fn lemma_nibbles(value: u64, low: u64, high: u64)
    by (bit_vector)
    requires
        high == low + 4,
        high <= 64,
    ensures
        high < 64 ==> (value >> low) / 16 == value >> high,
        high < 64 && value >> high == 0 ==> value >> low < 16,
        high == 64 ==> value >> low < 16,
        (value >> low) % 16 == (value >> low) & 0xf,
        (value >> low) & 0xf < 16,
        value >> 0 == value,
{
}

/// The hexadecimal digits of `value` and how many they are.
fn hex_digits(value: u64) -> (digits: (String, usize))
    ensures
        digits.0@ == hex(value),
        digits.1 == hex(value).len(),
        1 <= digits.1 <= 16,
{
    let mut top: u64 = 0;
    while top < 15 && (value >> (4 * (top + 1))) != 0
        invariant
            top <= 15,
            top == 0 || value >> ((4 * top) as u64) != 0,
        decreases 15 - top,
    {
        top += 1;
    }
    proof {
        lemma_nibbles(value, (4 * top) as u64, (4 * top + 4) as u64);
    }
    let mut text = String::from_str(digit_str(value >> (4 * top)));
    let mut position = top;
    let mut count: usize = 1;
    while position > 0
        invariant
            position <= top <= 15,
            text@ == hex(value >> ((4 * position) as u64)),
            count == top - position + 1,
            count == text@.len(),
            top == 0 || value >> ((4 * position) as u64) != 0,
        decreases position,
    {
        position -= 1;
        let digit = (value >> (4 * position)) & 0xf;
        proof {
            lemma_nibbles(value, (4 * position) as u64, (4 * position + 4) as u64);
        }
        text.append(digit_str(digit));
        count += 1;
    }
    proof {
        lemma_nibbles(value, 0, 4);
    }
    (text, count)
}

/// `value` as a dump shows it.
pub fn format_value(value: u64) -> (text: String)
    ensures
        text@ == hex_field(value),
        text@.len() == 18,
{
    let (digits, count) = hex_digits(value);
    let mut text = String::from_str("");
    let mut padded: usize = 0;
    proof {
        reveal_strlit("");
        reveal_strlit(" ");
        reveal_strlit("0x");
        assert(text@ =~= spaces(0));
    }
    while padded < 16 - count
        invariant
            padded <= 16 - count,
            1 <= count <= 16,
            text@ == spaces(padded as nat),
            " "@ == seq![' '],
        decreases 16 - count - padded,
    {
        text.append(" ");
        padded += 1;
        assert(text@ =~= spaces(padded as nat));
    }
    text.append("0x");
    text.append(digits.as_str());
    text
}

fn abi_name(index: usize) -> (name: &'static str)
    requires
        index < 32,
    ensures
        name@ == abi_names()[index as int],
{
    match index {
        0 => "zero",
        1 => " ra ",
        2 => " sp ",
        3 => " gp ",
        4 => " tp ",
        5 => " t0 ",
        6 => " t1 ",
        7 => " t2 ",
        8 => " s0 ",
        9 => " s1 ",
        10 => " a0 ",
        11 => " a1 ",
        12 => " a2 ",
        13 => " a3 ",
        14 => " a4 ",
        15 => " a5 ",
        16 => " a6 ",
        17 => " a7 ",
        18 => " s2 ",
        19 => " s3 ",
        20 => " s4 ",
        21 => " s5 ",
        22 => " s6 ",
        23 => " s7 ",
        24 => " s8 ",
        25 => " s9 ",
        26 => " s10",
        27 => " s11",
        28 => " t3 ",
        29 => " t4 ",
        30 => " t5 ",
        _ => " t6 ",
    }
}

/// One register as a dump shows it.
pub fn format_register(registers: &[u64; 32], index: usize) -> (text: String)
    requires
        index < 32,
    ensures
        text@ == register_entry(registers@, index as int),
{
    let mut number = String::from_str(digit_str((index / 10) as u64));
    number.append(digit_str((index % 10) as u64));
    assert(number@ =~= index_field(index as int));
    let mut text = String::from_str("x");
    text.append(number.as_str());
    text.append("(");
    text.append(abi_name(index));
    text.append(")=");
    text.append(format_value(registers[index]).as_str());
    text
}

/// Four registers from `index` on as a dump shows them.
pub fn format_line(registers: &[u64; 32], index: usize) -> (text: String)
    requires
        index + 3 < 32,
    ensures
        text@ == register_line(registers@, index as int),
{
    let mut text = format_register(registers, index);
    text.append(" ");
    text.append(format_register(registers, index + 1).as_str());
    text.append(" ");
    text.append(format_register(registers, index + 2).as_str());
    text.append(" ");
    text.append(format_register(registers, index + 3).as_str());
    text
}

/// The dump of the integer registers.
pub fn format_registers(registers: &[u64; 32]) -> (text: String)
    ensures
        text@ == registers_text(registers@),
{
    let mut text = String::from_str("");
    let mut line: usize = 0;
    proof {
        reveal_strlit("");
        assert(text@ =~= register_lines(registers@, 0));
    }
    while line < 8
        invariant
            line <= 8,
            text@ == register_lines(registers@, line as nat),
        decreases 8 - line,
    {
        text.append("\n");
        text.append(format_line(registers, 4 * line).as_str());
        line += 1;
    }
    text
}

/// One CSR as a dump shows it.
pub fn format_csr(name: &str, value: u64) -> (text: String)
    ensures
        text@ == csr_entry(name@, value),
{
    let mut text = String::from_str(name);
    text.append("=");
    text.append(format_value(value).as_str());
    text
}

} // verus!
