//! The wide-string encoding: a value's text as 16-bit code units, with
//! characters above the basic plane written as surrogate pairs and never
//! recombined.

use vstd::prelude::*;
use vstd::utf8::char_is_scalar;

verus! {

/// The 16-bit code units of one character: itself if it lies in the
/// basic plane, else its high and low surrogate.
pub open spec fn utf16_of_char(c: char) -> Seq<u16> {
    let v = c as nat;
    if v < 0x10000 {
        seq![v as u16]
    } else {
        seq![
            (0xD800 + (v - 0x10000) / 0x400) as u16,
            (0xDC00 + (v - 0x10000) % 0x400) as u16,
        ]
    }
}

/// The 16-bit code units of a character sequence, in order.
pub open spec fn wide_units(s: Seq<char>) -> Seq<u16>
    decreases s.len(),
{
    if s.len() == 0 {
        Seq::empty()
    } else {
        wide_units(s.drop_last()) + utf16_of_char(s.last())
    }
}

/// Encodes a value's text into its 16-bit code units.
pub fn encode_wide(value: &str) -> (r: Vec<u16>)
    ensures
        r@ == wide_units(value@),
{
    let n = value.unicode_len();
    let mut r: Vec<u16> = Vec::new();
    proof {
        assert(r@ =~= wide_units(value@.take(0)));
    }
    let mut i: usize = 0;
    while i < n
        invariant
            n == value@.len(),
            i <= n,
            r@ == wide_units(value@.take(i as int)),
        decreases n - i,
    {
        let c = value.get_char(i);
        proof {
            char_is_scalar(c);
        }
        let u = c as u32;
        if u < 0x10000 {
            r.push(u as u16);
        } else {
            let v = u - 0x10000;
            r.push(0xD800 + (v / 0x400) as u16);
            r.push(0xDC00 + (v % 0x400) as u16);
        }
        proof {
            assert(value@.take(i + 1).drop_last() =~= value@.take(i as int));
            assert(value@.take(i + 1).last() == value@[i as int]);
            assert(r@ =~= wide_units(value@.take(i + 1)));
        }
        i += 1;
    }
    proof {
        assert(value@.take(n as int) =~= value@);
    }
    r
}

} // verus!
