//! Emission of the array literal: each code unit printed in decimal,
//! separated by a comma and a space, between square brackets.

use vstd::prelude::*;

verus! {

/// The decimal digit character for a value below ten.
pub open spec fn digit_char(d: nat) -> char {
    if d == 0 {
        '0'
    } else if d == 1 {
        '1'
    } else if d == 2 {
        '2'
    } else if d == 3 {
        '3'
    } else if d == 4 {
        '4'
    } else if d == 5 {
        '5'
    } else if d == 6 {
        '6'
    } else if d == 7 {
        '7'
    } else if d == 8 {
        '8'
    } else {
        '9'
    }
}

/// The decimal representation of a natural number, most significant
/// digit first, with no sign, no padding and no leading zero except for
/// zero itself.
pub open spec fn dec_rep(n: nat) -> Seq<char>
    decreases n,
{
    if n < 10 {
        seq![digit_char(n)]
    } else {
        dec_rep(n / 10).push(digit_char(n % 10))
    }
}

/// The elements of the emitted array: the decimal representation of each
/// unit in order, the units separated by a comma and a space.
pub open spec fn elems_rep(units: Seq<nat>) -> Seq<char>
    decreases units.len(),
{
    if units.len() == 0 {
        Seq::empty()
    } else if units.len() == 1 {
        dec_rep(units[0])
    } else {
        dec_rep(units[0]) + seq![',', ' '] + elems_rep(units.drop_first())
    }
}

/// The full text of the emitted array literal.
pub open spec fn array_rep(units: Seq<nat>) -> Seq<char> {
    seq!['['] + elems_rep(units) + seq![']']
}

/// The sequence of unit values held by a byte sequence.
pub open spec fn byte_units(v: Seq<u8>) -> Seq<nat> {
    v.map(|i: int, b: u8| b as nat)
}

/// The sequence of unit values held by a 16-bit unit sequence.
pub open spec fn wide_unit_values(v: Seq<u16>) -> Seq<nat> {
    v.map(|i: int, u: u16| u as nat)
}

/// Appending one unit to a non-empty list appends one separator and one
/// decimal representation to its element text.
pub proof fn lemma_elems_snoc(units: Seq<nat>, x: nat)
    requires
        units.len() >= 1,
    ensures
        elems_rep(units.push(x)) == elems_rep(units) + seq![',', ' '] + dec_rep(x),
    decreases units.len(),
{
    let p = units.push(x);
    assert(p[0] == units[0]);
    if units.len() == 1 {
        assert(p.drop_first() =~= seq![x]);
        assert(elems_rep(seq![x]) == dec_rep(x));
        assert(elems_rep(p) == dec_rep(units[0]) + seq![',', ' '] + dec_rep(x));
        assert(elems_rep(units) == dec_rep(units[0]));
    } else {
        lemma_elems_snoc(units.drop_first(), x);
        assert(p.drop_first() =~= units.drop_first().push(x));
        assert(elems_rep(p) == dec_rep(units[0]) + seq![',', ' ']
            + (elems_rep(units.drop_first()) + seq![',', ' '] + dec_rep(x)));
        assert(elems_rep(units) == dec_rep(units[0]) + seq![',', ' '] + elems_rep(units.drop_first()));
    }
    assert(elems_rep(p) =~= elems_rep(units) + seq![',', ' '] + dec_rep(x));
}

/// The decimal digit of a value below ten, as a one-character string.
fn digit_str(d: u16) -> (r: &'static str)
    requires
        d < 10,
    ensures
        r@ == seq![digit_char(d as nat)],
{
    proof {
        reveal_strlit("0");
        reveal_strlit("1");
        reveal_strlit("2");
        reveal_strlit("3");
        reveal_strlit("4");
        reveal_strlit("5");
        reveal_strlit("6");
        reveal_strlit("7");
        reveal_strlit("8");
        reveal_strlit("9");
    }
    match d {
        0 => "0",
        1 => "1",
        2 => "2",
        3 => "3",
        4 => "4",
        5 => "5",
        6 => "6",
        7 => "7",
        8 => "8",
        _ => "9",
    }
}

/// The decimal text of one code unit.
pub fn dec_string(n: u16) -> (r: String)
    ensures
        r@ == dec_rep(n as nat),
    decreases n,
{
    if n < 10 {
        String::from_str(digit_str(n))
    } else {
        let mut r = dec_string(n / 10);
        r.append(digit_str(n % 10));
        proof {
            assert(r@ =~= dec_rep(n as nat));
        }
        r
    }
}

/// Emits the array literal for a sequence of 8-bit units.
pub fn emit_u8_array(units: &Vec<u8>) -> (r: String)
    ensures
        r@ == array_rep(byte_units(units@)),
{
    let mut out = String::from_str("[");
    proof {
        reveal_strlit("[");
        assert(out@ =~= seq!['['] + elems_rep(byte_units(units@).take(0)));
    }
    let mut i: usize = 0;
    while i < units.len()
        invariant
            i <= units.len(),
            out@ == seq!['['] + elems_rep(byte_units(units@).take(i as int)),
        decreases units.len() - i,
    {
        if i > 0 {
            out.append(", ");
        }
        let d = dec_string(units[i] as u16);
        out.append(d.as_str());
        proof {
            reveal_strlit(", ");
            let ghost all = byte_units(units@);
            assert(all.take(i + 1) =~= all.take(i as int).push(all[i as int]));
            if i > 0 {
                lemma_elems_snoc(all.take(i as int), all[i as int]);
            }
            assert(out@ =~= seq!['['] + elems_rep(all.take(i + 1)));
        }
        i += 1;
    }
    out.append("]");
    proof {
        reveal_strlit("]");
        assert(byte_units(units@).take(units@.len() as int) =~= byte_units(units@));
        assert(out@ =~= array_rep(byte_units(units@)));
    }
    out
}

/// Emits the array literal for a sequence of 16-bit units.
pub fn emit_u16_array(units: &Vec<u16>) -> (r: String)
    ensures
        r@ == array_rep(wide_unit_values(units@)),
{
    let mut out = String::from_str("[");
    proof {
        reveal_strlit("[");
        assert(out@ =~= seq!['['] + elems_rep(wide_unit_values(units@).take(0)));
    }
    let mut i: usize = 0;
    while i < units.len()
        invariant
            i <= units.len(),
            out@ == seq!['['] + elems_rep(wide_unit_values(units@).take(i as int)),
        decreases units.len() - i,
    {
        if i > 0 {
            out.append(", ");
        }
        let d = dec_string(units[i]);
        out.append(d.as_str());
        proof {
            reveal_strlit(", ");
            let ghost all = wide_unit_values(units@);
            assert(all.take(i + 1) =~= all.take(i as int).push(all[i as int]));
            if i > 0 {
                lemma_elems_snoc(all.take(i as int), all[i as int]);
            }
            assert(out@ =~= seq!['['] + elems_rep(all.take(i + 1)));
        }
        i += 1;
    }
    out.append("]");
    proof {
        reveal_strlit("]");
        assert(wide_unit_values(units@).take(units@.len() as int) =~= wide_unit_values(units@));
        assert(out@ =~= array_rep(wide_unit_values(units@)));
    }
    out
}

} // verus!
