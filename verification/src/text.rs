//! Numbers as text.

use vstd::prelude::*;
use vstd::string::StringExecFns;

verus! {

/// The digit for `d`, in lower case.
pub open spec fn digit_char(d: nat) -> char {
    if d < 10 {
        (('0' as nat) + d) as char
    } else {
        (('a' as nat) + d - 10) as char
    }
}

/// The digits of `n` in the given base, highest first.
pub open spec fn digits(n: nat, base: nat) -> Seq<char>
    decreases n,
{
    if base < 2 || n < base {
        seq![digit_char(n)]
    } else {
        proof {
            assert(n / base < n) by (nonlinear_arith)
                requires
                    2 <= base <= n,
            ;
        }
        digits(n / base, base).push(digit_char(n % base))
    }
}

/// The digit for `d`, in lower case.
fn digit_text(d: u64) -> (text: &'static str)
    requires
        d < 16,
    ensures
        text@ == seq![digit_char(d as nat)],
{
    proof {
        reveal_strlit("0");
        reveal_strlit("1");
        reveal_strlit("2");
        reveal_strlit("3");
        reveal_strlit("4");
        reveal_strlit("5");
        reveal_strlit("6");
        reveal_strlit("7");
        reveal_strlit("8");
        reveal_strlit("9");
        reveal_strlit("a");
        reveal_strlit("b");
        reveal_strlit("c");
        reveal_strlit("d");
        reveal_strlit("e");
        reveal_strlit("f");
    }
    match d {
        0 => "0",
        1 => "1",
        2 => "2",
        3 => "3",
        4 => "4",
        5 => "5",
        6 => "6",
        7 => "7",
        8 => "8",
        9 => "9",
        10 => "a",
        11 => "b",
        12 => "c",
        13 => "d",
        14 => "e",
        _ => "f",
    }
}

/// Appends the digits of `n` in the given base.
fn append_digits(out: &mut String, n: u64, base: u64)
    requires
        2 <= base <= 16,
    ensures
        final(out)@ == old(out)@ + digits(n as nat, base as nat),
    decreases n,
{
    if n < base {
        out.append(digit_text(n));
    } else {
        assert(n / base < n) by (nonlinear_arith)
            requires
                2 <= base <= n,
        ;
        append_digits(out, n / base, base);
        out.append(digit_text(n % base));
    }
}

/// Appends `n` in decimal.
pub fn append_decimal(out: &mut String, n: u64)
    ensures
        final(out)@ == old(out)@ + digits(n as nat, 10),
{
    append_digits(out, n, 10);
}

/// Appends `n` in hexadecimal, with its prefix.
pub fn append_hex(out: &mut String, n: u64)
    ensures
        final(out)@ == old(out)@ + "0x"@ + digits(n as nat, 16),
{
    out.append("0x");
    append_digits(out, n, 16);
}

/// The value of a digit.
pub open spec fn digit_value(c: char) -> int {
    if '0' <= c && c <= '9' {
        c as int - '0' as int
    } else {
        c as int - 'a' as int + 10
    }
}

/// The number that a text of digits stands for in the given base, read from left to right.
pub open spec fn value_of(text: Seq<char>, base: nat) -> int
    decreases text.len(),
{
    if text.len() == 0 {
        0
    } else {
        base * value_of(text.drop_last(), base) + digit_value(text.last())
    }
}

/// The digits of a number stand for that number, are digits of the base, and start with no
/// zero unless the number is zero.
pub proof fn digits_stand_for_the_number(n: nat, base: nat)
    requires
        2 <= base <= 16,
    ensures
        value_of(digits(n, base), base) == n,
        digits(n, base).len() > 0,
        n > 0 ==> digits(n, base)[0] != '0',
        forall|i: int|
            0 <= i < digits(n, base).len() ==> 0 <= digit_value(#[trigger] digits(n, base)[i])
                < base,
    decreases n,
{
    if n < base {
        assert(digits(n, base).drop_last() =~= Seq::empty());
        reveal_with_fuel(value_of, 2);
    } else {
        let high = n / base;
        let low = n % base;
        assert(high < n && high > 0 && base * high + low == n && low < base) by (nonlinear_arith)
            requires
                2 <= base <= n,
                high == n / base,
                low == n % base,
        ;
        digits_stand_for_the_number(high, base);
        assert(digits(n, base).drop_last() =~= digits(high, base));
        assert(digits(n, base).last() == digit_char(low));
    }
}

/// Numbers are appended behind what is there: in decimal as they are, in hexadecimal with
/// a prefix.
pub proof fn numbers_are_appended(n: u64)
    ensures
        forall|out: &mut String, done: ()| #[trigger]
            call_ensures(append_decimal, (out, n), done) ==> out@.is_prefix_of(final(out)@)
                && value_of(final(out)@.skip(out@.len() as int), 10) == n,
        forall|out: &mut String, done: ()| #[trigger]
            call_ensures(append_hex, (out, n), done) ==> (out@ + seq!['0', 'x']).is_prefix_of(
                final(out)@,
            ) && value_of(final(out)@.skip(out@.len() + 2int), 16) == n,
{
    reveal_strlit("0x");
    digits_stand_for_the_number(n as nat, 10);
    digits_stand_for_the_number(n as nat, 16);
    assert forall|out: &mut String, done: ()| #[trigger]
        call_ensures(append_decimal, (out, n), done) implies out@.is_prefix_of(final(out)@)
        && value_of(final(out)@.skip(out@.len() as int), 10) == n by {
        assert(final(out)@.skip(out@.len() as int) =~= digits(n as nat, 10));
        assert(out@ =~= final(out)@.subrange(0, out@.len() as int));
    }
    assert forall|out: &mut String, done: ()| #[trigger]
        call_ensures(append_hex, (out, n), done) implies (out@ + seq!['0', 'x']).is_prefix_of(
        final(out)@,
    ) && value_of(final(out)@.skip(out@.len() + 2int), 16) == n by {
        assert("0x"@ =~= seq!['0', 'x']);
        assert(final(out)@.skip(out@.len() + 2int) =~= digits(n as nat, 16));
        assert(out@ + seq!['0', 'x'] =~= final(out)@.subrange(0, out@.len() + 2int));
    }
}

} // verus!
