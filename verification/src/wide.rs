//! Transcoding between the library's strings and the wide-character (UTF-16)
//! text the shell service exchanges. This is the only place where text
//! changes representation; the service boundary performs no other
//! conversion.

use vstd::prelude::*;
use vstd::utf8::{char_is_scalar, char_u32_cast, is_scalar};

verus! {

broadcast use vstd::utf8::char_is_scalar, vstd::utf8::char_u32_cast;

/// A unit that opens a surrogate pair.
pub open spec fn is_high_surrogate(u: u16) -> bool {
    0xD800 <= u <= 0xDBFF
}

/// A unit that closes a surrogate pair.
pub open spec fn is_low_surrogate(u: u16) -> bool {
    0xDC00 <= u <= 0xDFFF
}

/// The scalar value a surrogate pair stands for.
pub open spec fn pair_scalar(hi: u16, lo: u16) -> int {
    0x10000 + (hi - 0xD800) * 0x400 + (lo - 0xDC00)
}

/// The UTF-16 units of one character: itself when it lies in the basic
/// plane, a surrogate pair otherwise.
pub open spec fn wide_of_char(c: char) -> Seq<u16> {
    let v = c as u32;
    if v < 0x10000 {
        seq![v as u16]
    } else {
        seq![
            (0xD800 + (v - 0x10000) / 0x400) as u16,
            (0xDC00 + (v - 0x10000) % 0x400) as u16,
        ]
    }
}

/// The UTF-16 encoding of a character sequence.
pub open spec fn wide_of(s: Seq<char>) -> Seq<u16>
    decreases s.len(),
{
    if s.len() == 0 {
        Seq::empty()
    } else {
        wide_of_char(s[0]) + wide_of(s.skip(1))
    }
}

/// The characters a UTF-16 unit sequence encodes; `None` when a surrogate
/// unit stands alone or a pair is malformed.
pub open spec fn chars_of_wide(units: Seq<u16>) -> Option<Seq<char>>
    decreases units.len(),
{
    if units.len() == 0 {
        Some(Seq::empty())
    } else if !is_high_surrogate(units[0]) && !is_low_surrogate(units[0]) {
        match chars_of_wide(units.skip(1)) {
            Some(rest) => Some(seq![(units[0] as u32) as char] + rest),
            None => None,
        }
    } else if is_high_surrogate(units[0]) && units.len() >= 2 && is_low_surrogate(units[1]) {
        match chars_of_wide(units.skip(2)) {
            Some(rest) => Some(seq![(pair_scalar(units[0], units[1]) as u32) as char] + rest),
            None => None,
        }
    } else {
        None
    }
}

/// Relies on char::from_u32: every Unicode scalar value names a character,
/// and the conversion returns the character with exactly that value.
#[verifier::external_body]
fn char_from_scalar(v: u32) -> (c: char)
    requires
        is_scalar(v),
    ensures
        c as u32 == v,
{
    char::from_u32(v).unwrap()
}

/// Relies on String::push: appends exactly one character.
#[verifier::external_body]
pub(crate) fn push_char(s: &mut String, c: char)
    ensures
        final(s)@ == old(s)@.push(c),
{
    s.push(c);
}

/// Appending one character appends its units to the encoding.
proof fn lemma_wide_of_push(t: Seq<char>, c: char)
    ensures
        wide_of(t.push(c)) == wide_of(t) + wide_of_char(c),
    decreases t.len(),
{
    if t.len() == 0 {
        reveal_with_fuel(wide_of, 2);
        assert(t.push(c)[0] == c);
        assert(t.push(c).skip(1) =~= Seq::<char>::empty());
        assert(wide_of(t.push(c)) =~= wide_of(t) + wide_of_char(c));
    } else {
        assert(t.push(c)[0] == t[0]);
        assert(t.push(c).skip(1) =~= t.skip(1).push(c));
        lemma_wide_of_push(t.skip(1), c);
        assert(wide_of(t.push(c)) =~= wide_of(t) + wide_of_char(c));
    }
}

/// The UTF-16 units of `s`, in order, with no terminator.
pub fn encode_wide(s: &str) -> (units: Vec<u16>)
    ensures
        units@ == wide_of(s@),
{
    let len = s.unicode_len();
    let mut units: Vec<u16> = Vec::new();
    let mut i: usize = 0;
    while i < len
        invariant
            i <= len,
            len == s@.len(),
            units@ == wide_of(s@.take(i as int)),
        decreases len - i,
    {
        let c = s.get_char(i);
        let v = c as u32;
        proof {
            char_is_scalar(c);
            lemma_wide_of_push(s@.take(i as int), c);
            assert(s@.take(i + 1) =~= s@.take(i as int).push(c));
        }
        if v < 0x10000 {
            units.push(v as u16);
            proof {
                assert(units@ =~= wide_of(s@.take(i + 1)));
            }
        } else {
            let off = v - 0x10000;
            assert(off / 0x400 < 0x400) by (nonlinear_arith)
                requires
                    off < 0x100000,
            ;
            let hi = (0xD800 + off / 0x400) as u16;
            let lo = (0xDC00 + off % 0x400) as u16;
            units.push(hi);
            units.push(lo);
            proof {
                assert(units@ =~= wide_of(s@.take(i + 1)));
            }
        }
        i = i + 1;
    }
    proof {
        assert(s@.take(len as int) =~= s@);
    }
    units
}

/// The decoding of the remaining units, continued after characters already
/// produced.
pub open spec fn decode_continued(done: Seq<char>, rest: Seq<u16>) -> Option<Seq<char>> {
    match chars_of_wide(rest) {
        Some(tail) => Some(done + tail),
        None => None,
    }
}

/// The string a wide unit sequence encodes; `None` exactly on malformed
/// UTF-16 (a lone or misordered surrogate unit).
pub fn decode_wide(units: &Vec<u16>) -> (r: Option<String>)
    ensures
        match r {
            Some(s) => chars_of_wide(units@) == Some(s@),
            None => chars_of_wide(units@) is None,
        },
{
    let mut out = String::new();
    let mut i: usize = 0;
    proof {
        assert(units@.skip(0) =~= units@);
    }
    while i < units.len()
        invariant
            i <= units@.len(),
            decode_continued(out@, units@.skip(i as int)) == chars_of_wide(units@),
        decreases units@.len() - i,
    {
        let ghost rest = units@.skip(i as int);
        proof {
            assert(rest.len() == units@.len() - i);
            assert(rest[0] == units@[i as int]);
        }
        let u = units[i];
        if u < 0xD800 || u >= 0xE000 {
            let c = char_from_scalar(u as u32);
            let ghost prev = out@;
            push_char(&mut out, c);
            proof {
                char_u32_cast(c, u as u32);
                assert(rest.skip(1) =~= units@.skip(i + 1));
                match chars_of_wide(units@.skip(i + 1)) {
                    Some(tail) => {
                        assert(prev.push(c) + tail =~= prev + (seq![c] + tail));
                    },
                    None => {},
                }
            }
            i = i + 1;
        } else {
            if u >= 0xDC00 {
                proof {
                    assert(chars_of_wide(rest) is None);
                }
                return None;
            }
            if i + 1 >= units.len() {
                proof {
                    assert(chars_of_wide(rest) is None);
                }
                return None;
            }
            proof {
                assert(rest[1] == units@[i + 1]);
            }
            let u2 = units[i + 1];
            if u2 < 0xDC00 || u2 >= 0xE000 {
                proof {
                    assert(chars_of_wide(rest) is None);
                }
                return None;
            }
            let v = 0x10000 + (u as u32 - 0xD800) * 0x400 + (u2 as u32 - 0xDC00);
            proof {
                assert(v == pair_scalar(u, u2));
            }
            let c = char_from_scalar(v);
            let ghost prev = out@;
            push_char(&mut out, c);
            proof {
                char_u32_cast(c, v);
                assert(rest.skip(2) =~= units@.skip(i + 2));
                match chars_of_wide(units@.skip(i + 2)) {
                    Some(tail) => {
                        assert(prev.push(c) + tail =~= prev + (seq![c] + tail));
                    },
                    None => {},
                }
            }
            i = i + 2;
        }
    }
    proof {
        assert(units@.skip(i as int) =~= Seq::<u16>::empty());
        assert(out@ + Seq::<char>::empty() =~= out@);
    }
    Some(out)
}

/// Decoding inverts encoding: the wide form of any character sequence is
/// well formed and decodes back to that same sequence.
pub proof fn lemma_wide_round_trip(s: Seq<char>)
    ensures
        chars_of_wide(wide_of(s)) == Some(s),
    decreases s.len(),
{
    if s.len() == 0 {
        assert(chars_of_wide(wide_of(s)) == Some(Seq::<char>::empty()));
        assert(Seq::<char>::empty() =~= s);
    } else {
        let c = s[0];
        let v = c as u32;
        let u = wide_of_char(c);
        let tail = wide_of(s.skip(1));
        char_is_scalar(c);
        lemma_wide_round_trip(s.skip(1));
        assert(wide_of(s) == u + tail);
        if v < 0x10000 {
            assert(((v as u16) as u32) == v) by (bit_vector)
                requires
                    v < 0x10000,
            ;
            char_u32_cast(c, v);
            assert((u + tail)[0] == v as u16);
            assert((u + tail).skip(1) =~= tail);
            assert(seq![((v as u16) as u32) as char] + s.skip(1) =~= s);
        } else {
            let off = v - 0x10000;
            assert(off / 0x400 < 0x400) by (nonlinear_arith)
                requires
                    off < 0x100000,
            ;
            let hi = (0xD800 + off / 0x400) as u16;
            let lo = (0xDC00 + off % 0x400) as u16;
            assert(hi == 0xD800 + off / 0x400);
            assert(lo == 0xDC00 + off % 0x400);
            assert((u + tail).len() >= 2);
            assert((u + tail)[0] == hi && (u + tail)[1] == lo);
            assert((u + tail).skip(2) =~= tail);
            vstd::arithmetic::div_mod::lemma_fundamental_div_mod(off, 0x400);
            assert(pair_scalar(hi, lo) == v);
            char_u32_cast(c, v);
            assert(seq![(pair_scalar(hi, lo) as u32) as char] + s.skip(1) =~= s);
        }
    }
}

/// The wide form of `s` with the service's terminating zero unit appended.
/// `None` when the encoded text itself contains a zero unit, which the
/// service would read as an early terminator: that encoding failure is a
/// hard error, never silent truncation.
pub fn encode_wide_nul(s: &str) -> (r: Option<Vec<u16>>)
    ensures
        match r {
            Some(u) => !wide_of(s@).contains(0u16) && u@ == wide_of(s@).push(0u16),
            None => wide_of(s@).contains(0u16),
        },
{
    let mut units = encode_wide(s);
    let n = units.len();
    let mut i: usize = 0;
    while i < n
        invariant
            i <= n,
            n == units@.len(),
            units@ == wide_of(s@),
            forall|j: int| 0 <= j < i ==> units@[j] != 0u16,
        decreases n - i,
    {
        if units[i] == 0 {
            return None;
        }
        i = i + 1;
    }
    units.push(0);
    Some(units)
}

} // verus!
