//! Rendering of register values as text: decimal numbers, two-digit
//! zero-padded decimal bytes, and four-digit uppercase hexadecimal.
//!
//! Each exec function appends to a `String` and promises the exact
//! character sequence it added, so the callers' renderings (versions,
//! serial numbers, addresses) are pinned character by character.

use vstd::prelude::*;
use vstd::string::StringExecFns;

verus! {

/// The decimal digit character for a value below ten.
pub open spec fn dec_digit(d: nat) -> char {
    if d == 0 {
        '0'
    } else if d == 1 {
        '1'
    } else if d == 2 {
        '2'
    } else if d == 3 {
        '3'
    } else if d == 4 {
        '4'
    } else if d == 5 {
        '5'
    } else if d == 6 {
        '6'
    } else if d == 7 {
        '7'
    } else if d == 8 {
        '8'
    } else {
        '9'
    }
}

/// The uppercase hexadecimal digit character for a value below sixteen.
pub open spec fn hex_digit(d: nat) -> char {
    if d < 10 {
        dec_digit(d)
    } else if d == 10 {
        'A'
    } else if d == 11 {
        'B'
    } else if d == 12 {
        'C'
    } else if d == 13 {
        'D'
    } else if d == 14 {
        'E'
    } else {
        'F'
    }
}

/// The decimal rendering of a number, most significant digit first,
/// without leading zeros (a lone zero renders as "0").
pub open spec fn spec_dec(n: nat) -> Seq<char>
    decreases n,
{
    if n < 10 {
        seq![dec_digit(n)]
    } else {
        spec_dec(n / 10).push(dec_digit(n % 10))
    }
}

/// The decimal rendering padded on the left with '0' to at least two
/// characters, as the serial number's year and week fields are shown.
pub open spec fn spec_pad2(n: nat) -> Seq<char> {
    if n < 10 {
        seq!['0'].add(spec_dec(n))
    } else {
        spec_dec(n)
    }
}

/// The four-digit uppercase hexadecimal rendering of a 16-bit value.
pub open spec fn spec_hex4(n: nat) -> Seq<char> {
    seq![
        hex_digit(n / 4096 % 16),
        hex_digit(n / 256 % 16),
        hex_digit(n / 16 % 16),
        hex_digit(n % 16),
    ]
}

/// A decimal digit character.
pub open spec fn spec_is_digit(c: char) -> bool {
    '0' <= c && c <= '9'
}

/// The numeric value of a decimal digit character.
pub open spec fn spec_digit_value(c: char) -> int {
    c as int - '0' as int
}

/// The first position at or after `i` that does not hold a digit; the
/// run of digits starting at `i` ends there.
pub open spec fn spec_digits_end(s: Seq<char>, i: int) -> int
    decreases s.len() - i,
{
    if i < 0 || i >= s.len() || !spec_is_digit(s[i]) {
        i
    } else {
        spec_digits_end(s, i + 1)
    }
}

/// The value of the digits `s[i..j]`, read most significant first.
pub open spec fn spec_digits_value(s: Seq<char>, i: int, j: int) -> int
    decreases j - i,
{
    if j <= i {
        0
    } else {
        spec_digits_value(s, i, j - 1) * 10 + spec_digit_value(s[j - 1])
    }
}

/// Every character of a decimal rendering is a digit, and the digit
/// character of a value below ten reads back as that value.
pub proof fn lemma_dec_chars_are_digits(n: nat)
    ensures
        forall|k: int|
            0 <= k < spec_dec(n).len() ==> #[trigger] spec_is_digit(spec_dec(n)[k])
                && spec_digit_value(spec_dec(n)[k]) < 10,
    decreases n,
{
    if n < 10 {
        assert(spec_is_digit(dec_digit(n)) && spec_digit_value(dec_digit(n)) == n);
    } else {
        lemma_dec_chars_are_digits(n / 10);
        assert(spec_is_digit(dec_digit(n % 10)) && spec_digit_value(dec_digit(n % 10)) == n % 10);
        assert(forall|k: int|
            0 <= k < spec_dec(n).len() - 1 ==> spec_dec(n)[k] == spec_dec(n / 10)[k]);
    }
}

/// A run of digits ends exactly where the digits stop.
pub proof fn lemma_digits_end_of_run(s: Seq<char>, i: int, j: int)
    requires
        0 <= i <= j <= s.len(),
        forall|k: int| i <= k < j ==> #[trigger] spec_is_digit(s[k]),
        j == s.len() || !spec_is_digit(s[j]),
    ensures
        spec_digits_end(s, i) == j,
    decreases j - i,
{
    if i < j {
        lemma_digits_end_of_run(s, i + 1, j);
    }
}

/// The digits of a decimal rendering, read back most significant
/// first, give the rendered value.
pub proof fn lemma_digits_value_of_dec(s: Seq<char>, i: int, n: nat)
    requires
        0 <= i,
        i + spec_dec(n).len() <= s.len(),
        s.subrange(i, i + spec_dec(n).len() as int) == spec_dec(n),
    ensures
        spec_digits_value(s, i, i + spec_dec(n).len() as int) == n,
    decreases n,
{
    let d = spec_dec(n);
    let l = d.len() as int;
    assert(s[i + l - 1] == d[l - 1]);
    if n < 10 {
        assert(spec_digits_value(s, i, i) == 0);
        assert(spec_digit_value(dec_digit(n)) == n);
    } else {
        let dq = spec_dec(n / 10);
        let lq = dq.len() as int;
        assert(d == dq.push(dec_digit(n % 10)));
        assert(l == lq + 1);
        assert(s.subrange(i, i + lq) =~= dq) by {
            assert(forall|k: int| 0 <= k < lq ==> s.subrange(i, i + l)[k] == #[trigger] dq[k]);
        }
        lemma_digits_value_of_dec(s, i, n / 10);
        assert(spec_digit_value(d[l - 1]) == n % 10) by {
            assert(spec_digit_value(dec_digit(n % 10)) == n % 10);
        }
        assert(spec_digits_value(s, i, i + l) == (n / 10) * 10 + n % 10);
        assert((n / 10) * 10 + n % 10 == n) by (nonlinear_arith);
    }
}

/// The one-character string for a decimal digit.
fn dec_digit_str(d: u16) -> (r: &'static str)
    requires
        d < 10,
    ensures
        r@ =~= seq![dec_digit(d as nat)],
{
    proof {
        reveal_strlit("0");
        reveal_strlit("1");
        reveal_strlit("2");
        reveal_strlit("3");
        reveal_strlit("4");
        reveal_strlit("5");
        reveal_strlit("6");
        reveal_strlit("7");
        reveal_strlit("8");
        reveal_strlit("9");
    }
    match d {
        0 => "0",
        1 => "1",
        2 => "2",
        3 => "3",
        4 => "4",
        5 => "5",
        6 => "6",
        7 => "7",
        8 => "8",
        _ => "9",
    }
}

/// The one-character string for an uppercase hexadecimal digit.
fn hex_digit_str(d: u16) -> (r: &'static str)
    requires
        d < 16,
    ensures
        r@ =~= seq![hex_digit(d as nat)],
{
    proof {
        reveal_strlit("A");
        reveal_strlit("B");
        reveal_strlit("C");
        reveal_strlit("D");
        reveal_strlit("E");
        reveal_strlit("F");
    }
    if d < 10 {
        dec_digit_str(d)
    } else {
        match d {
            10 => "A",
            11 => "B",
            12 => "C",
            13 => "D",
            14 => "E",
            _ => "F",
        }
    }
}

/// Appends the decimal rendering of `n`.
pub fn push_dec(s: &mut String, n: u16)
    ensures
        final(s)@ == old(s)@ + spec_dec(n as nat),
    decreases n,
{
    if n >= 10 {
        push_dec(s, n / 10);
    }
    s.append(dec_digit_str(n % 10));
    proof {
        if n < 10 {
            assert(n % 10 == n);
            assert(final(s)@ =~= old(s)@ + spec_dec(n as nat));
        } else {
            assert(final(s)@ =~= old(s)@ + spec_dec(n as nat));
        }
    }
}

/// Appends the decimal rendering of `n` padded to at least two digits.
pub fn push_pad2(s: &mut String, n: u8)
    ensures
        final(s)@ == old(s)@ + spec_pad2(n as nat),
{
    if n < 10 {
        proof {
            reveal_strlit("0");
        }
        s.append("0");
    }
    push_dec(s, n as u16);
    proof {
        assert(final(s)@ =~= old(s)@ + spec_pad2(n as nat));
    }
}

/// Appends the four-digit uppercase hexadecimal rendering of `n`.
pub fn push_hex4(s: &mut String, n: u16)
    ensures
        final(s)@ == old(s)@ + spec_hex4(n as nat),
{
    s.append(hex_digit_str(n / 4096 % 16));
    s.append(hex_digit_str(n / 256 % 16));
    s.append(hex_digit_str(n / 16 % 16));
    s.append(hex_digit_str(n % 16));
    proof {
        assert(final(s)@ =~= old(s)@ + spec_hex4(n as nat));
    }
}

} // verus!
