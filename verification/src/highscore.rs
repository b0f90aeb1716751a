//! The highscore's on-disk shape: a decimal number in plain text.
//! Reading and writing the file stays outside; this module turns the
//! file's bytes into a score and back, and an unreadable value is
//! reported as absent, never as an error that could end the session.

use vstd::prelude::*;

verus! {

/// Every byte is a decimal digit.
pub open spec fn all_digits(s: Seq<u8>) -> bool {
    forall|i: int| 0 <= i < s.len() ==> 48 <= #[trigger] s[i] <= 57
}

/// The number a run of decimal digit bytes denotes.
pub open spec fn decimal_value(s: Seq<u8>) -> int
    decreases s.len(),
{
    if s.len() == 0 {
        0
    } else {
        decimal_value(s.drop_last()) * 10 + (s.last() - 48)
    }
}

/// The canonical decimal digits of a number, most significant first.
pub open spec fn spec_digits(v: int) -> Seq<u8>
    decreases v,
{
    if v < 10 {
        seq![(48 + (if v >= 0 { v } else { 0 })) as u8]
    } else {
        spec_digits(v / 10).push((48 + v % 10) as u8)
    }
}

/// A digit run denotes at least the number its prefixes denote.
proof fn lemma_prefix_value_le(s: Seq<u8>, j: int)
    requires
        all_digits(s),
        0 <= j <= s.len(),
    ensures
        0 <= decimal_value(s.take(j)) <= decimal_value(s),
    decreases s.len() - j,
{
    lemma_value_nonneg(s.take(j));
    if j < s.len() {
        lemma_prefix_value_le(s, j + 1);
        assert(s.take(j + 1).drop_last() =~= s.take(j));
        assert(decimal_value(s.take(j + 1)) == decimal_value(s.take(j)) * 10 + (s[j] - 48));
    } else {
        assert(s.take(j) =~= s);
    }
}

/// A digit run denotes a number, never a negative value.
proof fn lemma_value_nonneg(s: Seq<u8>)
    requires
        all_digits(s),
    ensures
        decimal_value(s) >= 0,
    decreases s.len(),
{
    if s.len() > 0 {
        assert(all_digits(s.drop_last()));
        lemma_value_nonneg(s.drop_last());
        assert(48 <= s.last() <= 57);
    }
}

/// The canonical digits of a number denote it, digit for digit.
pub proof fn lemma_digits_roundtrip(v: int)
    requires
        v >= 0,
    ensures
        all_digits(spec_digits(v)),
        decimal_value(spec_digits(v)) == v,
        spec_digits(v).len() >= 1,
    decreases v,
{
    if v < 10 {
        assert(spec_digits(v) =~= seq![(48 + v) as u8]);
        assert(spec_digits(v).drop_last() =~= Seq::<u8>::empty());
        assert(decimal_value(Seq::<u8>::empty()) == 0);
        assert(decimal_value(spec_digits(v)) == decimal_value(spec_digits(v).drop_last()) * 10 + (
        spec_digits(v).last() - 48));
    } else {
        lemma_digits_roundtrip(v / 10);
        let s = spec_digits(v);
        assert(s.drop_last() =~= spec_digits(v / 10));
        assert(s.last() == (48 + v % 10) as u8);
        assert(decimal_value(s) == (v / 10) * 10 + v % 10);
        vstd::arithmetic::div_mod::lemma_fundamental_div_mod(v, 10);
        assert forall|i: int| 0 <= i < s.len() implies 48 <= #[trigger] s[i] <= 57 by {
            if i < s.len() - 1 {
                assert(s[i] == spec_digits(v / 10)[i]);
            }
        }
    }
}

/// Reads a score from the bytes of the highscore file: the number
/// they denote, if they are one or more decimal digits whose value
/// fits the score's type, and nothing otherwise.
pub fn parse_highscore(s: &[u8]) -> (r: Option<u16>)
    ensures
        r == (if s@.len() > 0 && all_digits(s@) && decimal_value(s@) <= u16::MAX {
            Some(decimal_value(s@) as u16)
        } else {
            None::<u16>
        }),
{
    let n = s.len();
    if n == 0 {
        return None;
    }
    let mut value: u32 = 0;
    let mut i: usize = 0;
    while i < n
        invariant
            n == s@.len(),
            0 <= i <= n,
            all_digits(s@.take(i as int)),
            value == decimal_value(s@.take(i as int)),
            value <= 0xFFFF,
        decreases n - i,
    {
        let b = s[i];
        if b < 48 || b > 57 {
            proof {
                assert(!(48 <= s@[i as int] <= 57));
            }
            return None;
        }
        let digit: u32 = (b - 48) as u32;
        let next: u32 = value * 10 + digit;
        proof {
            assert(s@.take(i as int + 1).drop_last() =~= s@.take(i as int));
            assert(decimal_value(s@.take(i as int + 1)) == value * 10 + (s@[i as int] - 48));
        }
        if next > 0xFFFF {
            proof {
                if all_digits(s@) && decimal_value(s@) <= u16::MAX {
                    lemma_prefix_value_le(s@, i as int + 1);
                }
            }
            return None;
        }
        value = next;
        i = i + 1;
    }
    proof {
        assert(s@.take(n as int) =~= s@);
    }
    Some(value as u16)
}

/// Writes a score as the bytes of the highscore file: its decimal
/// digits, most significant first and without leading zeroes.
pub fn format_highscore(v: u16) -> (r: Vec<u8>)
    ensures
        r@ == spec_digits(v as int),
        all_digits(r@),
        decimal_value(r@) == v,
{
    let mut out: Vec<u8> = Vec::new();
    push_digits(v, &mut out);
    proof {
        assert(out@ =~= spec_digits(v as int));
        lemma_digits_roundtrip(v as int);
    }
    out
}

/// Appends the canonical digits of a number.
fn push_digits(v: u16, out: &mut Vec<u8>)
    ensures
        final(out)@ == old(out)@ + spec_digits(v as int),
    decreases v,
{
    let ghost pre = out@;
    if v < 10 {
        out.push(48 + v as u8);
        proof {
            assert(out@ =~= pre + spec_digits(v as int));
        }
    } else {
        push_digits(v / 10, out);
        out.push(48 + (v % 10) as u8);
        proof {
            assert(out@ =~= pre + spec_digits(v as int));
        }
    }
}

/// Round trip: a written score reads back as itself.
pub proof fn lemma_highscore_roundtrip(v: u16)
    ensures
        decimal_value(spec_digits(v as int)) == v,
        all_digits(spec_digits(v as int)),
        spec_digits(v as int).len() >= 1,
{
    lemma_digits_roundtrip(v as int);
}

} // verus!
