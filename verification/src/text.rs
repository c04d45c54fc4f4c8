//! Names as the spooler takes and gives them: NUL-terminated UTF-16.

use vstd::prelude::*;

verus! {

/// The UTF-16 code units of one character.
pub open spec fn utf16_of_char(c: char) -> Seq<u16> {
    let v = c as u32;
    if v < 0x10000 {
        seq![v as u16]
    } else {
        let w = v - 0x10000;
        seq![(0xD800 + w / 0x400) as u16, (0xDC00 + w % 0x400) as u16]
    }
}

/// The UTF-16 encoding of a character sequence.
pub open spec fn utf16_encode(s: Seq<char>) -> Seq<u16>
    decreases s.len(),
{
    if s.len() == 0 {
        Seq::empty()
    } else {
        utf16_encode(s.drop_last()) + utf16_of_char(s.last())
    }
}

/// The characters that UTF-16 code units decode to, or `None` where they hold
/// an unpaired surrogate.
pub open spec fn utf16_decode(units: Seq<u16>) -> Option<Seq<char>>
    decreases units.len(),
{
    if units.len() == 0 {
        Some(Seq::empty())
    } else {
        let u = units[0];
        if u < 0xD800 || u > 0xDFFF {
            match utf16_decode(units.drop_first()) {
                Some(rest) => Some(seq![u as char] + rest),
                None => None,
            }
        } else if u <= 0xDBFF && units.len() >= 2 && 0xDC00 <= units[1] <= 0xDFFF {
            let c = (0x10000 + (u - 0xD800) * 0x400 + (units[1] - 0xDC00)) as char;
            match utf16_decode(units.subrange(2, units.len() as int)) {
                Some(rest) => Some(seq![c] + rest),
                None => None,
            }
        } else {
            None
        }
    }
}

/// The UTF-16 code units of `s` followed by a NUL, as the wide-character calls take a name.
pub fn str_to_utf16(s: &str) -> (res: Vec<u16>)
    ensures
        res@ == utf16_encode(s@).push(0),
{
    let mut out: Vec<u16> = Vec::new();
    for c in it: s.chars()
        invariant
            it.seq() == s@,
            out@ == utf16_encode(s@.take(it.index() as int)),
            it.index() == s@.len() ==> out@ == utf16_encode(s@),
    {
        let ghost before = s@.take(it.index() as int);
        let ghost out_before = out@;
        let v = c as u32;
        proof {
            vstd::utf8::char_is_scalar(c);
        }
        if v < 0x10000 {
            out.push(v as u16);
        } else {
            let w = v - 0x10000;
            assert(w < 0x100000);
            out.push((0xD800 + w / 0x400) as u16);
            out.push((0xDC00 + w % 0x400) as u16);
        }
        proof {
            let after = s@.take(it.index() + 1);
            assert(after.drop_last() =~= before);
            assert(after.last() == c);
            assert(out@ =~= out_before + utf16_of_char(c));
            assert(utf16_encode(after) == utf16_encode(after.drop_last()) + utf16_of_char(
                after.last(),
            ));
            if it.index() + 1 == s@.len() {
                assert(after =~= s@);
            }
        }
    }
    out.push(0);
    out
}

/// `String::from_utf16`: the documentation says that it decodes UTF-16 and
/// fails where the units hold invalid data; the contract states that decoding
/// as `utf16_decode`.
#[verifier::external_body]
pub(crate) fn string_from_utf16(units: &[u16]) -> (res: Option<String>)
    ensures
        res is Some <==> utf16_decode(units@) is Some,
        res matches Some(s) ==> s@ == utf16_decode(units@)->0,
{
    match String::from_utf16(units) {
        Ok(s) => Some(s),
        Err(_) => None,
    }
}

proof fn lemma_decode_after_char(c: char, rest: Seq<u16>)
    ensures
        utf16_decode(utf16_of_char(c) + rest) == match utf16_decode(rest) {
            Some(r) => Some(seq![c] + r),
            None => None::<Seq<char>>,
        },
{
    let v = c as u32;
    vstd::utf8::char_is_scalar(c);
    vstd::utf8::char_u32_cast(c, v);
    let units = utf16_of_char(c) + rest;
    if v < 0x10000 {
        let u = v as u16;
        assert(u as int == v as int);
        assert(units[0] == u);
        assert(units.drop_first() =~= rest);
        assert((u as char) == (v as char));
    } else {
        let w = v - 0x10000;
        let hi = (0xD800 + w / 0x400) as u16;
        let lo = (0xDC00 + w % 0x400) as u16;
        assert(w / 0x400 * 0x400 + w % 0x400 == w) by (nonlinear_arith);
        assert(0xD800 <= hi <= 0xDBFF);
        assert(0xDC00 <= lo <= 0xDFFF);
        assert(units[0] == hi);
        assert(units[1] == lo);
        assert(units.subrange(2, units.len() as int) =~= rest);
        assert(0x10000 + (hi - 0xD800) * 0x400 + (lo - 0xDC00) == v as int);
    }
}

proof fn lemma_encode_front(s: Seq<char>)
    requires
        s.len() > 0,
    ensures
        utf16_encode(s) == utf16_of_char(s[0]) + utf16_encode(s.drop_first()),
    decreases s.len(),
{
    if s.len() == 1 {
        assert(s.drop_last() =~= Seq::<char>::empty());
        assert(s.drop_first() =~= Seq::<char>::empty());
        assert(utf16_encode(s) =~= utf16_of_char(s[0]));
        assert(utf16_encode(s.drop_first()) =~= Seq::<u16>::empty());
    } else {
        lemma_encode_front(s.drop_last());
        assert(s.drop_last().drop_first() =~= s.drop_first().drop_last());
        assert(s.drop_first().last() == s.last());
        assert(s.drop_last()[0] == s[0]);
        assert(utf16_encode(s) =~= utf16_of_char(s[0]) + utf16_encode(s.drop_first()));
    }
}

/// Law: the UTF-16 form in which a name is handed to the spooler decodes back
/// to the same name, so a name that the spooler hands back in the same form
/// reads as the name that was given.
pub proof fn lemma_utf16_round_trip(s: Seq<char>)
    ensures
        utf16_decode(utf16_encode(s)) == Some(s),
    decreases s.len(),
{
    if s.len() == 0 {
        assert(utf16_encode(s) =~= Seq::<u16>::empty());
        assert(s =~= Seq::<char>::empty());
    } else {
        lemma_encode_front(s);
        lemma_utf16_round_trip(s.drop_first());
        lemma_decode_after_char(s[0], utf16_encode(s.drop_first()));
        assert(seq![s[0]] + s.drop_first() =~= s);
    }
}

} // verus!
