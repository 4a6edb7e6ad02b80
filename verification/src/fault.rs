use vstd::prelude::*;
use vstd::string::StringExecFns;

verus! {

/// The registers that the processor stacks on entry to an exception.
#[derive(Clone, Copy, Debug, PartialEq, Eq)]
pub struct FaultFrame {
    pub r0: u32,
    pub r1: u32,
    pub r2: u32,
    pub r3: u32,
    pub r12: u32,
    pub lr: u32,
    pub pc: u32,
    pub xpsr: u32,
}

/// The lower-case hexadecimal digit of `d`, for `d` in `0..16`.
pub open spec fn hex_digit(d: int) -> char {
    if d < 10 {
        ('0' as int + d) as char
    } else {
        ('a' as int + (d - 10)) as char
    }
}

/// The last `n` hexadecimal digits of `v`, most significant first, padded with zeros.
pub open spec fn hex_digits(v: nat, n: nat) -> Seq<char>
    decreases n,
{
    if n == 0 {
        Seq::empty()
    } else {
        hex_digits(v / 16, (n - 1) as nat).push(hex_digit((v % 16) as int))
    }
}

/// One line of the report: the register's name and its value as eight hex digits.
pub open spec fn field_text(name: Seq<char>, value: u32) -> Seq<char> {
    "    "@ + name + ": 0x"@ + hex_digits(value as nat, 8) + ",\n"@
}

/// The text that a hard fault reports: the stacked registers, one per line.
pub open spec fn fault_report(f: FaultFrame) -> Seq<char> {
    "ExceptionFrame {\n"@
        + field_text("r0"@, f.r0)
        + field_text("r1"@, f.r1)
        + field_text("r2"@, f.r2)
        + field_text("r3"@, f.r3)
        + field_text("r12"@, f.r12)
        + field_text("lr"@, f.lr)
        + field_text("pc"@, f.pc)
        + field_text("xpsr"@, f.xpsr)
        + "}"@
}

fn hex_digit_str(d: u32) -> (s: &'static str)
    requires
        d < 16,
    ensures
        s@ == seq![hex_digit(d as int)],
{
    match d {
        0 => { proof { reveal_strlit("0"); } "0" },
        1 => { proof { reveal_strlit("1"); } "1" },
        2 => { proof { reveal_strlit("2"); } "2" },
        3 => { proof { reveal_strlit("3"); } "3" },
        4 => { proof { reveal_strlit("4"); } "4" },
        5 => { proof { reveal_strlit("5"); } "5" },
        6 => { proof { reveal_strlit("6"); } "6" },
        7 => { proof { reveal_strlit("7"); } "7" },
        8 => { proof { reveal_strlit("8"); } "8" },
        9 => { proof { reveal_strlit("9"); } "9" },
        10 => { proof { reveal_strlit("a"); } "a" },
        11 => { proof { reveal_strlit("b"); } "b" },
        12 => { proof { reveal_strlit("c"); } "c" },
        13 => { proof { reveal_strlit("d"); } "d" },
        14 => { proof { reveal_strlit("e"); } "e" },
        _ => { proof { reveal_strlit("f"); } "f" },
    }
}

fn append_hex(out: &mut String, v: u32, n: usize)
    ensures
        final(out)@ == old(out)@ + hex_digits(v as nat, n as nat),
    decreases n,
{
    if n > 0 {
        append_hex(out, v / 16, n - 1);
        let digit = hex_digit_str(v % 16);
        out.append(digit);
        proof {
            let prefix = hex_digits((v / 16) as nat, (n - 1) as nat);
            assert(hex_digits(v as nat, n as nat) == prefix.push(hex_digit((v % 16) as int)));
            assert(old(out)@ + hex_digits(v as nat, n as nat) =~= old(out)@ + prefix + digit@);
        }
    } else {
        assert(old(out)@ + hex_digits(v as nat, 0) =~= old(out)@);
    }
}

fn append_field(out: &mut String, name: &str, value: u32)
    ensures
        final(out)@ == old(out)@ + field_text(name@, value),
{
    out.append("    ");
    out.append(name);
    out.append(": 0x");
    append_hex(out, value, 8);
    out.append(",\n");
    assert(final(out)@ =~= old(out)@ + field_text(name@, value));
}

/// The report of a hard fault: the stacked registers of `frame`, each as
/// eight lower-case hex digits, one register per line. This is the text of
/// the pretty-printed `Debug` form of `cortex_m_rt::ExceptionFrame`, which
/// the exception handler panics with.
#[allow(non_snake_case)]
pub fn HardFault(frame: &FaultFrame) -> (report: String)
    ensures
        report@ == fault_report(*frame),
{
    let mut report = String::new();
    report.append("ExceptionFrame {\n");
    append_field(&mut report, "r0", frame.r0);
    append_field(&mut report, "r1", frame.r1);
    append_field(&mut report, "r2", frame.r2);
    append_field(&mut report, "r3", frame.r3);
    append_field(&mut report, "r12", frame.r12);
    append_field(&mut report, "lr", frame.lr);
    append_field(&mut report, "pc", frame.pc);
    append_field(&mut report, "xpsr", frame.xpsr);
    report.append("}");
    report
}


/// The number that a hexadecimal digit character stands for.
pub open spec fn hex_char_value(c: char) -> int {
    if '0' <= c && c <= '9' {
        c as int - '0' as int
    } else {
        c as int - 'a' as int + 10
    }
}

/// Whether `c` is one of `0`..`9`, `a`..`f`.
pub open spec fn is_hex_char(c: char) -> bool {
    ('0' <= c && c <= '9') || ('a' <= c && c <= 'f')
}

/// The number written by a string of hexadecimal digits, most significant first.
pub open spec fn hex_value(s: Seq<char>) -> int
    decreases s.len(),
{
    if s.len() == 0 {
        0
    } else {
        hex_value(s.drop_last()) * 16 + hex_char_value(s.last())
    }
}

/// Sixteen to the power `n`.
pub open spec fn pow16(n: nat) -> nat
    decreases n,
{
    if n == 0 {
        1
    } else {
        16 * pow16((n - 1) as nat)
    }
}

proof fn lemma_hex_digits_read_back(v: nat, n: nat)
    requires
        v < pow16(n),
    ensures
        hex_digits(v, n).len() == n,
        hex_value(hex_digits(v, n)) == v,
        forall|i: int| 0 <= i < n ==> is_hex_char(#[trigger] hex_digits(v, n)[i]),
    decreases n,
{
    if n > 0 {
        let p = pow16((n - 1) as nat);
        assert(v / 16 < p) by (nonlinear_arith)
            requires
                v < 16 * p,
        ;
        lemma_hex_digits_read_back(v / 16, (n - 1) as nat);
        let d: int = (v % 16) as int;
        let s = hex_digits(v, n);
        assert(s.drop_last() =~= hex_digits(v / 16, (n - 1) as nat));
        assert(s.last() == hex_digit(d));
        assert(hex_char_value(hex_digit(d)) == d);
        assert(is_hex_char(hex_digit(d)));
        assert forall|i: int| 0 <= i < n implies is_hex_char(#[trigger] s[i]) by {
            if i < n - 1 {
                assert(s[i] == hex_digits(v / 16, (n - 1) as nat)[i]);
            }
        }
    }
}

/// The eight digits written for a register are hexadecimal digits, and read
/// back as the register's value: each digit stands for its own number.
pub proof fn lemma_register_digits_read_back(v: u32)
    ensures
        hex_digits(v as nat, 8).len() == 8,
        hex_value(hex_digits(v as nat, 8)) == v,
        forall|i: int| 0 <= i < 8 ==> is_hex_char(#[trigger] hex_digits(v as nat, 8)[i]),
        forall|d: int| 0 <= d < 16 ==> hex_char_value(#[trigger] hex_digit(d)) == d,
{
    assert(pow16(8) == 0x1_0000_0000) by {
        reveal_with_fuel(pow16, 9);
    }
    lemma_hex_digits_read_back(v as nat, 8);
}
} // verus!
