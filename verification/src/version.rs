//! Versions: three independent 16-bit fields read from three consecutive
//! holding registers, rendered as `vMAJOR.MINOR.PATCH`.
//!
//! Two instances exist per device, hardware and firmware version, read
//! from disjoint register ranges; both use this codec.

use crate::digits::{
    lemma_dec_chars_are_digits, lemma_digits_end_of_run, lemma_digits_value_of_dec, push_dec,
    spec_dec, spec_digit_value, spec_digits_end, spec_digits_value, spec_is_digit,
};
use vstd::prelude::*;
use vstd::string::{StrSliceExecFns, StringExecFns};

verus! {

/// A device version: major, minor and patch, with no overflow or
/// rollover semantics.
#[derive(Debug, Clone, Copy, PartialEq, Eq, Structural)]
pub struct Version {
    pub major: u16,
    pub minor: u16,
    pub patch: u16,
}

/// The version held in three consecutive registers, one field each.
pub open spec fn spec_decode_version(regs: Seq<u16>) -> Version {
    Version { major: regs[0], minor: regs[1], patch: regs[2] }
}

/// The three register words that encode a version.
pub open spec fn spec_encode_version(v: Version) -> Seq<u16> {
    seq![v.major, v.minor, v.patch]
}

/// The rendering `vMAJOR.MINOR.PATCH`.
pub open spec fn spec_version_text(v: Version) -> Seq<char> {
    seq!['v'] + spec_dec(v.major as nat) + seq!['.'] + spec_dec(v.minor as nat) + seq!['.']
        + spec_dec(v.patch as nat)
}

impl Version {
    /// Decodes the three consecutive registers of a version range.
    pub fn decode(regs: &Vec<u16>) -> (r: Version)
        requires
            regs@.len() == 3,
        ensures
            r == spec_decode_version(regs@),
    {
        Version { major: regs[0], minor: regs[1], patch: regs[2] }
    }

    /// Encodes the version as the three register words of its range.
    pub fn encode(&self) -> (r: Vec<u16>)
        ensures
            r@ == spec_encode_version(*self),
    {
        let mut regs: Vec<u16> = Vec::new();
        regs.push(self.major);
        regs.push(self.minor);
        regs.push(self.patch);
        proof {
            assert(regs@ =~= spec_encode_version(*self));
        }
        regs
    }

    /// Renders the version as `vMAJOR.MINOR.PATCH`.
    pub fn to_text(&self) -> (r: String)
        ensures
            r@ == spec_version_text(*self),
    {
        proof {
            reveal_strlit("v");
            reveal_strlit(".");
        }
        let mut s = String::new();
        s.append("v");
        push_dec(&mut s, self.major);
        s.append(".");
        push_dec(&mut s, self.minor);
        s.append(".");
        push_dec(&mut s, self.patch);
        proof {
            assert(s@ =~= spec_version_text(*self));
        }
        s
    }
}

/// The version a string names, if any: an optional leading 'v', then
/// exactly three runs of digits separated by dots, each run nonempty
/// and its value within 16 bits. Anything else names no version.
pub open spec fn spec_parse_version(s: Seq<char>) -> Option<Version> {
    let b: int = if s.len() > 0 && s[0] == 'v' {
        1
    } else {
        0
    };
    let j1 = spec_digits_end(s, b);
    let j2 = spec_digits_end(s, j1 + 1);
    let j3 = spec_digits_end(s, j2 + 1);
    if j1 == b || j1 >= s.len() || s[j1] != '.' {
        None
    } else if j2 == j1 + 1 || j2 >= s.len() || s[j2] != '.' {
        None
    } else if j3 == j2 + 1 || j3 != s.len() {
        None
    } else {
        let major = spec_digits_value(s, b, j1);
        let minor = spec_digits_value(s, j1 + 1, j2);
        let patch = spec_digits_value(s, j2 + 1, j3);
        if major <= u16::MAX && minor <= u16::MAX && patch <= u16::MAX {
            Some(Version { major: major as u16, minor: minor as u16, patch: patch as u16 })
        } else {
            None
        }
    }
}

/// Reads the run of digits starting at `from`: where it ends, and its
/// value, saturated just past 16 bits when it is too large.
fn scan_field(s: &str, from: usize, n: usize) -> (r: (usize, u32))
    requires
        n == s@.len(),
        from <= n,
    ensures
        ({
            let (end, val) = r;
            &&& end == spec_digits_end(s@, from as int)
            &&& from <= end <= n
            &&& (spec_digits_value(s@, from as int, end as int) <= u16::MAX ==> val
                == spec_digits_value(s@, from as int, end as int))
            &&& (spec_digits_value(s@, from as int, end as int) > u16::MAX ==> val > u16::MAX)
        }),
{
    let mut i = from;
    let mut val: u32 = 0;
    loop
        invariant
            from <= i <= n,
            n == s@.len(),
            spec_digits_end(s@, from as int) == spec_digits_end(s@, i as int),
            val <= 655359,
            spec_digits_value(s@, from as int, i as int) <= u16::MAX ==> val == spec_digits_value(
                s@,
                from as int,
                i as int,
            ),
            spec_digits_value(s@, from as int, i as int) > u16::MAX ==> val > u16::MAX,
        ensures
            i == spec_digits_end(s@, from as int),
            spec_digits_value(s@, from as int, i as int) <= u16::MAX ==> val == spec_digits_value(
                s@,
                from as int,
                i as int,
            ),
            spec_digits_value(s@, from as int, i as int) > u16::MAX ==> val > u16::MAX,
        decreases n - i,
    {
        if i == n {
            break ;
        }
        let c = s.get_char(i);
        if !(c >= '0' && c <= '9') {
            break ;
        }
        let d: u32 = c as u32 - 48;
        proof {
            assert(spec_digit_value(s@[i as int]) == d);
        }
        val = if val > 65535 {
            65536
        } else {
            val * 10 + d
        };
        i = i + 1;
    }
    (i, val)
}

impl Version {
    /// Reads a version from text such as `1.2.0` or `v1.2.0`: an
    /// optional leading 'v', then major, minor and patch as decimal
    /// numbers separated by dots. Text of any other shape, or with a
    /// field beyond 16 bits, names no version.
    pub fn parse(s: &str) -> (r: Option<Version>)
        ensures
            r == spec_parse_version(s@),
    {
        let n = s.unicode_len();
        let b: usize = if n > 0 && s.get_char(0) == 'v' {
            1
        } else {
            0
        };
        let (j1, major) = scan_field(s, b, n);
        if j1 == b || j1 >= n || s.get_char(j1) != '.' {
            return None;
        }
        let (j2, minor) = scan_field(s, j1 + 1, n);
        if j2 == j1 + 1 || j2 >= n || s.get_char(j2) != '.' {
            return None;
        }
        let (j3, patch) = scan_field(s, j2 + 1, n);
        if j3 == j2 + 1 || j3 != n {
            return None;
        }
        if major <= 65535 && minor <= 65535 && patch <= 65535 {
            Some(Version { major: major as u16, minor: minor as u16, patch: patch as u16 })
        } else {
            None
        }
    }

    /// Ordering by major, then minor, then patch.
    pub open spec fn spec_at_least(self, other: Version) -> bool {
        ||| self.major > other.major
        ||| (self.major == other.major && self.minor > other.minor)
        ||| (self.major == other.major && self.minor == other.minor && self.patch >= other.patch)
    }

    /// True when this version is the other or newer, field by field:
    /// major first, then minor, then patch.
    pub fn at_least(&self, other: &Version) -> (r: bool)
        ensures
            r == self.spec_at_least(*other),
    {
        if self.major != other.major {
            self.major > other.major
        } else if self.minor != other.minor {
            self.minor > other.minor
        } else {
            self.patch >= other.patch
        }
    }
}

/// Rendering a version and parsing the text back yields the version
/// itself, for every version: the renderer and the parser agree on
/// the `vMAJOR.MINOR.PATCH` form.
pub proof fn lemma_version_text_roundtrip(v: Version)
    ensures
        spec_parse_version(spec_version_text(v)) == Some(v),
{
    let t = spec_version_text(v);
    let d0 = spec_dec(v.major as nat);
    let d1 = spec_dec(v.minor as nat);
    let d2 = spec_dec(v.patch as nat);
    let l0 = d0.len() as int;
    let l1 = d1.len() as int;
    let l2 = d2.len() as int;
    assert(t.len() == 3 + l0 + l1 + l2);
    assert(t[0] == 'v');
    assert(t[1 + l0] == '.');
    assert(t[2 + l0 + l1] == '.');
    assert(forall|k: int| 0 <= k < l0 ==> t[1 + k] == #[trigger] d0[k]);
    assert(forall|k: int| 0 <= k < l1 ==> t[2 + l0 + k] == #[trigger] d1[k]);
    assert(forall|k: int| 0 <= k < l2 ==> t[3 + l0 + l1 + k] == #[trigger] d2[k]);
    lemma_dec_chars_are_digits(v.major as nat);
    lemma_dec_chars_are_digits(v.minor as nat);
    lemma_dec_chars_are_digits(v.patch as nat);
    assert forall|k: int| 1 <= k < 1 + l0 implies #[trigger] spec_is_digit(t[k]) by {
        assert(spec_is_digit(d0[k - 1]));
    }
    assert forall|k: int| 2 + l0 <= k < 2 + l0 + l1 implies #[trigger] spec_is_digit(t[k]) by {
        assert(spec_is_digit(d1[k - 2 - l0]));
    }
    assert forall|k: int| 3 + l0 + l1 <= k < 3 + l0 + l1 + l2 implies #[trigger] spec_is_digit(
        t[k],
    ) by {
        assert(spec_is_digit(d2[k - 3 - l0 - l1]));
    }
    lemma_digits_end_of_run(t, 1, 1 + l0);
    lemma_digits_end_of_run(t, 2 + l0, 2 + l0 + l1);
    lemma_digits_end_of_run(t, 3 + l0 + l1, t.len() as int);
    assert(t.subrange(1, 1 + l0) =~= d0);
    assert(t.subrange(2 + l0, 2 + l0 + l1) =~= d1);
    assert(t.subrange(3 + l0 + l1, 3 + l0 + l1 + l2) =~= d2);
    lemma_digits_value_of_dec(t, 1, v.major as nat);
    lemma_digits_value_of_dec(t, 2 + l0, v.minor as nat);
    lemma_digits_value_of_dec(t, 3 + l0 + l1, v.patch as nat);
}

/// Encoding a version into its three registers and decoding them again
/// gives back the same version, for every 16-bit triple.
pub proof fn lemma_version_roundtrip(v: Version)
    ensures
        spec_decode_version(spec_encode_version(v)) == v,
{
}

/// Decoding any three registers and encoding the result restores the
/// register words unchanged.
pub proof fn lemma_version_registers_roundtrip(regs: Seq<u16>)
    requires
        regs.len() == 3,
    ensures
        spec_encode_version(spec_decode_version(regs)) =~= regs,
{
}

} // verus!
