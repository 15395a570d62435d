//! Reading an emitted array literal back: the decoded byte sequence of
//! the text that `emit` produces is exactly the sequence that was
//! emitted, so a value embedded on a POSIX-like target survives the
//! round trip byte for byte.

use vstd::prelude::*;
use crate::emit::array_rep;
use crate::emit::byte_units;
use crate::emit::dec_rep;
use crate::emit::digit_char;
use crate::emit::elems_rep;

verus! {

/// True of the ten decimal digit characters.
pub open spec fn is_digit(c: char) -> bool {
    48 <= c as nat && c as nat <= 57
}

/// The value of one decimal digit character.
pub open spec fn digit_val(c: char) -> nat {
    (c as nat - 48) as nat
}

/// The value of a decimal digit string, most significant digit first.
pub open spec fn dec_val(s: Seq<char>) -> nat
    decreases s.len(),
{
    if s.len() == 0 {
        0
    } else {
        dec_val(s.drop_last()) * 10 + digit_val(s.last())
    }
}

/// The length of the longest digit prefix of a character sequence.
pub open spec fn digits_prefix_len(s: Seq<char>) -> nat
    decreases s.len(),
{
    if s.len() > 0 && is_digit(s[0]) {
        1 + digits_prefix_len(s.drop_first())
    } else {
        0
    }
}

/// The unit values read from the element text of an array literal: one
/// or more decimal numbers separated by a comma and a space, and
/// nothing else.
pub open spec fn decode_elems(s: Seq<char>) -> Option<Seq<nat>>
    decreases s.len(),
{
    let k = digits_prefix_len(s);
    if k == 0 || k > s.len() {
        None
    } else {
        let n = dec_val(s.take(k as int));
        let rest = s.skip(k as int);
        if rest.len() == 0 {
            Some(seq![n])
        } else if rest.len() >= 2 && rest[0] == ',' && rest[1] == ' ' {
            match decode_elems(rest.skip(2)) {
                None => None,
                Some(t) => Some(seq![n] + t),
            }
        } else {
            None
        }
    }
}

/// The unit values read from the text of an array literal: the element
/// text between one opening and one closing bracket.
pub open spec fn decode_units(s: Seq<char>) -> Option<Seq<nat>> {
    if s.len() >= 2 && s[0] == '[' && s.last() == ']' {
        let mid = s.subrange(1, s.len() - 1);
        if mid.len() == 0 {
            Some(Seq::empty())
        } else {
            decode_elems(mid)
        }
    } else {
        None
    }
}

/// The bytes read from the text of an 8-bit array literal: its unit
/// values, each of which must fit in a byte.
pub open spec fn decode_bytes(s: Seq<char>) -> Option<Seq<u8>> {
    match decode_units(s) {
        None => None,
        Some(ns) => if forall|i: int| 0 <= i < ns.len() ==> (#[trigger] ns[i]) < 256 {
            Some(ns.map(|i: int, n: nat| n as u8))
        } else {
            None
        },
    }
}

/// A decimal representation is never empty and holds digit characters
/// only.
pub proof fn lemma_dec_rep_digits(n: nat)
    ensures
        dec_rep(n).len() >= 1,
        forall|i: int| 0 <= i < dec_rep(n).len() ==> is_digit(#[trigger] dec_rep(n)[i]),
    decreases n,
{
    if n < 10 {
        assert(is_digit(digit_char(n)));
        assert(dec_rep(n) == seq![digit_char(n)]);
    } else {
        lemma_dec_rep_digits(n / 10);
        assert(forall|i: int|
            0 <= i < dec_rep(n).len() ==> is_digit(#[trigger] dec_rep(n)[i])) by {
            assert(forall|i: int| 0 <= i < dec_rep(n).len() - 1 ==> dec_rep(n)[i] == dec_rep(
                n / 10,
            )[i]);
            assert(dec_rep(n)[dec_rep(n).len() - 1] == digit_char(n % 10));
            assert(is_digit(digit_char(n % 10)));
        }
    }
}

/// Reading a decimal representation back yields the number it was made
/// from.
pub proof fn lemma_dec_val_rep(n: nat)
    ensures
        dec_val(dec_rep(n)) == n,
    decreases n,
{
    if n < 10 {
        let s = seq![digit_char(n)];
        assert(s.drop_last() =~= Seq::<char>::empty());
        assert(dec_val(Seq::<char>::empty()) == 0);
        assert(s.last() == digit_char(n));
        assert(dec_val(s) == digit_val(digit_char(n)));
        assert(digit_val(digit_char(n)) == n);
    } else {
        lemma_dec_val_rep(n / 10);
        let s = dec_rep(n);
        assert(s.drop_last() =~= dec_rep(n / 10));
        assert(s.last() == digit_char(n % 10));
        assert(digit_val(digit_char(n % 10)) == n % 10);
        assert(dec_val(s) == (n / 10) * 10 + n % 10);
        assert((n / 10) * 10 + n % 10 == n) by (nonlinear_arith);
    }
}

/// The digit prefix of a digit string followed by anything that does
/// not begin with a digit is the digit string itself.
pub proof fn lemma_digits_prefix(d: Seq<char>, t: Seq<char>)
    requires
        forall|i: int| 0 <= i < d.len() ==> is_digit(#[trigger] d[i]),
        t.len() == 0 || !is_digit(t[0]),
    ensures
        digits_prefix_len(d + t) == d.len(),
    decreases d.len(),
{
    if d.len() == 0 {
        assert(d + t =~= t);
    } else {
        lemma_digits_prefix(d.drop_first(), t);
        assert((d + t)[0] == d[0]);
        assert((d + t).drop_first() =~= d.drop_first() + t);
    }
}

/// Reading the element text of a non-empty unit sequence back yields
/// that sequence.
pub proof fn lemma_decode_elems(v: Seq<nat>)
    requires
        v.len() >= 1,
    ensures
        decode_elems(elems_rep(v)) == Some(v),
    decreases v.len(),
{
    let s = elems_rep(v);
    let d = dec_rep(v[0]);
    lemma_dec_rep_digits(v[0]);
    lemma_dec_val_rep(v[0]);
    if v.len() == 1 {
        assert(s == d);
        assert(d =~= d + Seq::<char>::empty());
        lemma_digits_prefix(d, Seq::<char>::empty());
        let k = digits_prefix_len(s);
        assert(k == d.len());
        assert(s.take(k as int) =~= d);
        assert(s.skip(k as int).len() == 0);
        assert(decode_elems(s) == Some(seq![dec_val(d)]));
        assert(seq![dec_val(d)] =~= v);
    } else {
        let t = seq![',', ' '] + elems_rep(v.drop_first());
        assert(s =~= d + t);
        assert(t[0] == ',');
        assert(!is_digit(','));
        lemma_digits_prefix(d, t);
        let k = digits_prefix_len(s);
        assert(k == d.len());
        assert(k >= 1 && k <= s.len());
        assert(s.take(k as int) =~= d);
        let rest = s.skip(k as int);
        assert(rest =~= t);
        assert(rest.len() >= 2 && rest[0] == ',' && rest[1] == ' ');
        assert(rest.skip(2) =~= elems_rep(v.drop_first()));
        lemma_decode_elems(v.drop_first());
        assert(decode_elems(rest.skip(2)) == Some(v.drop_first()));
        assert(decode_elems(s) == Some(seq![dec_val(d)] + v.drop_first()));
        assert(seq![dec_val(d)] + v.drop_first() =~= v);
    }
}

/// Reading an emitted array literal back yields exactly the unit
/// sequence it was emitted from.
pub proof fn lemma_decode_units(v: Seq<nat>)
    ensures
        decode_units(array_rep(v)) == Some(v),
{
    let s = array_rep(v);
    assert(s[0] == '[');
    assert(s.last() == ']');
    assert(s.len() >= 2);
    let mid = s.subrange(1, s.len() - 1);
    assert(mid =~= elems_rep(v));
    if v.len() == 0 {
        assert(mid.len() == 0);
    } else {
        lemma_decode_elems(v);
        if v.len() == 1 {
            lemma_dec_rep_digits(v[0]);
            assert(mid.len() >= 1);
        } else {
            assert(mid.len() >= 1);
        }
    }
}

/// Round trip on a POSIX-like target: decoding the emitted array
/// literal as raw bytes reconstructs the embedded value exactly,
/// whatever bytes it holds.
pub proof fn lemma_posix_round_trip(v: Seq<u8>)
    ensures
        decode_bytes(array_rep(byte_units(v))) == Some(v),
{
    let ns = byte_units(v);
    lemma_decode_units(ns);
    assert(forall|i: int| 0 <= i < ns.len() ==> (#[trigger] ns[i]) < 256);
    assert(ns.map(|i: int, n: nat| n as u8) =~= v);
}

} // verus!
