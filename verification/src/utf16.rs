//! UTF-16, the encoding of every string that crosses into the windowing system.
//!
//! The encoding is stated as a function from characters to code units and the
//! lossy decoding as a function back; the executable converters are proved
//! against the two, and the two against each other.

use vstd::prelude::*;

verus! {

/// U+FFFD, which a lossy decoding puts in place of each code unit that is part
/// of no well-formed surrogate pair.
pub const REPLACEMENT_CHARACTER: char = '\u{FFFD}';

/// A code unit that opens a surrogate pair.
pub open spec fn is_high_surrogate(unit: u16) -> bool {
    0xD800 <= unit <= 0xDBFF
}

/// A code unit that closes a surrogate pair.
pub open spec fn is_low_surrogate(unit: u16) -> bool {
    0xDC00 <= unit <= 0xDFFF
}

/// A code unit that stands for no character by itself.
pub open spec fn is_surrogate(unit: u16) -> bool {
    0xD800 <= unit <= 0xDFFF
}

/// Whether `c` lies outside the basic plane and so takes two code units.
pub open spec fn needs_pair(c: char) -> bool {
    c as int >= 0x1_0000
}

/// The first code unit of the pair for a character outside the basic plane.
pub open spec fn high_unit(c: char) -> u16 {
    (0xD800 + (c as int - 0x1_0000) / 0x400) as u16
}

/// The second code unit of the pair for a character outside the basic plane.
pub open spec fn low_unit(c: char) -> u16 {
    (0xDC00 + (c as int - 0x1_0000) % 0x400) as u16
}

/// The code units of one character.
pub open spec fn units_of(c: char) -> Seq<u16> {
    if needs_pair(c) {
        seq![high_unit(c), low_unit(c)]
    } else {
        seq![c as u16]
    }
}

/// The UTF-16 encoding of a text: the code units of its characters, in order.
pub open spec fn encode(text: Seq<char>) -> Seq<u16>
    decreases text.len(),
{
    if text.len() == 0 {
        Seq::empty()
    } else {
        units_of(text[0]) + encode(text.drop_first())
    }
}

/// The character that a well-formed surrogate pair stands for.
pub open spec fn pair_scalar(high: u16, low: u16) -> char {
    (0x1_0000 + (high - 0xD800) * 0x400 + (low - 0xDC00)) as char
}

/// How many code units the first character of `units` takes up.
pub open spec fn first_width(units: Seq<u16>) -> int {
    if units.len() >= 2 && is_high_surrogate(units[0]) && is_low_surrogate(units[1]) {
        2
    } else {
        1
    }
}

/// The first character of a non-empty run of code units: the scalar of a
/// well-formed pair, the unit itself where it is no surrogate, and U+FFFD for a
/// surrogate that has no partner.
pub open spec fn first_char(units: Seq<u16>) -> char {
    if first_width(units) == 2 {
        pair_scalar(units[0], units[1])
    } else if is_surrogate(units[0]) {
        REPLACEMENT_CHARACTER
    } else {
        units[0] as char
    }
}

/// The lossy decoding of a run of code units. It is total: an unpaired
/// surrogate becomes U+FFFD and decoding goes on with the next unit.
pub open spec fn decode_lossy(units: Seq<u16>) -> Seq<char>
    decreases units.len(),
{
    if units.len() == 0 {
        Seq::empty()
    } else {
        seq![first_char(units)] + decode_lossy(units.skip(first_width(units)))
    }
}

/// Whether every surrogate among the code units is part of a well-formed pair:
/// the runs that a lossy decoding reads without putting in a U+FFFD of its own.
pub open spec fn well_formed(units: Seq<u16>) -> bool
    decreases units.len(),
{
    units.len() == 0 || {
        &&& first_width(units) == 2 || !is_surrogate(units[0])
        &&& well_formed(units.skip(first_width(units)))
    }
}

/// A character is a scalar value: a number up to `0x10FFFF` that is no surrogate.
pub proof fn lemma_char_is_scalar(c: char)
    ensures
        0 <= c as int <= 0xD7FF || 0xE000 <= c as int <= 0x10_FFFF,
{
}

/// Encoding goes character by character: the encoding of two texts in a row is
/// the two encodings in a row.
pub proof fn lemma_encode_concat(front: Seq<char>, back: Seq<char>)
    ensures
        encode(front + back) == encode(front) + encode(back),
    decreases front.len(),
{
    if front.len() > 0 {
        lemma_encode_concat(front.drop_first(), back);
        assert((front + back).drop_first() =~= front.drop_first() + back);
        assert(units_of(front[0]) + (encode(front.drop_first()) + encode(back)) =~= (units_of(
            front[0],
        ) + encode(front.drop_first())) + encode(back));
    }
}

/// A character takes one code unit or two, so an encoding is at least as long
/// as its text and at most twice as long.
pub proof fn lemma_encode_len(text: Seq<char>)
    ensures
        text.len() <= encode(text).len() <= 2 * text.len(),
    decreases text.len(),
{
    if text.len() > 0 {
        lemma_encode_len(text.drop_first());
    }
}

/// A text that holds no NUL character has no zero among its code units, so as
/// a wide string it is read to its end.
pub proof fn lemma_encode_keeps_nul_out(text: Seq<char>)
    requires
        forall|i: int| 0 <= i < text.len() ==> text[i] != '\0',
    ensures
        forall|j: int| 0 <= j < encode(text).len() ==> encode(text)[j] != 0,
    decreases text.len(),
{
    if text.len() > 0 {
        let c = text[0];
        let rest = text.drop_first();
        lemma_char_is_scalar(c);
        assert forall|i: int| 0 <= i < rest.len() implies rest[i] != '\0' by {
            assert(rest[i] == text[i + 1]);
        }
        lemma_encode_keeps_nul_out(rest);
        assert forall|j: int| 0 <= j < encode(text).len() implies encode(text)[j] != 0 by {
            if j >= units_of(c).len() {
                assert(encode(text)[j] == encode(rest)[j - units_of(c).len()]);
            }
        }
    }
}

/// Decoding undoes encoding: no text loses or changes a character on its way
/// through UTF-16, and none comes back with a U+FFFD that it did not hold.
pub proof fn lemma_decode_encode(text: Seq<char>)
    ensures
        decode_lossy(encode(text)) == text,
    decreases text.len(),
{
    if text.len() > 0 {
        let c = text[0];
        let rest = text.drop_first();
        let units = encode(text);
        lemma_decode_encode(rest);
        lemma_char_is_scalar(c);
        if needs_pair(c) {
            assert(units.skip(2) =~= encode(rest));
        } else {
            assert(units.skip(1) =~= encode(rest));
        }
    }
}

/// An encoding is well formed: it pairs every surrogate that it holds.
pub proof fn lemma_encode_is_well_formed(text: Seq<char>)
    ensures
        well_formed(encode(text)),
    decreases text.len(),
{
    if text.len() > 0 {
        let c = text[0];
        let units = encode(text);
        lemma_encode_is_well_formed(text.drop_first());
        lemma_char_is_scalar(c);
        assert(units.skip(first_width(units)) =~= encode(text.drop_first()));
    }
}

/// Encoding undoes the decoding of a well-formed run: such a run holds nothing
/// that its text does not hold, so decoding loses nothing of it.
pub proof fn lemma_encode_decode(units: Seq<u16>)
    requires
        well_formed(units),
    ensures
        encode(decode_lossy(units)) == units,
    decreases units.len(),
{
    if units.len() > 0 {
        let c = first_char(units);
        let rest = units.skip(first_width(units));
        let text = decode_lossy(units);
        lemma_encode_decode(rest);
        assert(text.drop_first() =~= decode_lossy(rest));
        assert(units_of(c) =~= units.take(first_width(units)));
        assert(units.take(first_width(units)) + rest =~= units);
    }
}

/// Appends the code units of `c` to `units`.
pub fn push_units(units: &mut Vec<u16>, c: char)
    ensures
        final(units)@ == old(units)@ + units_of(c),
{
    let scalar: u32 = c as u32;
    if scalar < 0x1_0000 {
        units.push(scalar as u16);
    } else {
        let offset: u32 = scalar - 0x1_0000;
        assert(offset >> 10 == offset / 0x400 && offset & 0x3FF == offset % 0x400) by (bit_vector);
        let high: u32 = 0xD800 + (offset >> 10);
        let low: u32 = 0xDC00 + (offset & 0x3FF);
        units.push(high as u16);
        units.push(low as u16);
    }
}

/// Encodes a string as UTF-16.
pub fn encode_utf16(text: &str) -> (units: Vec<u16>)
    ensures
        units@ == encode(text@),
{
    let mut units: Vec<u16> = Vec::new();
    assert(units@ + encode(text@.skip(0)) =~= encode(text@)) by {
        assert(text@.skip(0) =~= text@);
    }
    for c in chars: text.chars()
        invariant
            chars.seq() == text@,
            units@ + encode(text@.skip(chars.index() as int)) == encode(text@),
    {
        proof {
            let rest = text@.skip(chars.index() as int);
            assert(rest.drop_first() =~= text@.skip(chars.index() + 1));
        }
        push_units(&mut units, c);
    }
    units
}

/// Decodes a run of UTF-16 code units into a string, putting U+FFFD in place of
/// each surrogate that has no partner.
pub fn decode_utf16_lossy(units: &[u16]) -> (text: String)
    ensures
        text@ == decode_lossy(units@),
{
    let mut text = String::new();
    let mut i: usize = 0;
    assert(text@ + decode_lossy(units@.skip(0)) =~= decode_lossy(units@)) by {
        assert(units@.skip(0) =~= units@);
    }
    while i < units.len()
        invariant
            i <= units.len(),
            text@ + decode_lossy(units@.skip(i as int)) == decode_lossy(units@),
        decreases units.len() - i,
    {
        let ghost rest = units@.skip(i as int);
        let unit: u16 = units[i];
        if unit < 0xD800 || unit > 0xDFFF {
            text.push(char::from_u32(unit as u32).unwrap());
            i += 1;
        } else if unit <= 0xDBFF && i + 1 < units.len() && 0xDC00 <= units[i + 1] && units[i + 1]
            <= 0xDFFF {
            let high: u32 = unit as u32 - 0xD800;
            let low: u32 = units[i + 1] as u32 - 0xDC00;
            assert(high << 10 == high * 0x400) by (bit_vector)
                requires
                    high < 0x400,
            ;
            text.push(char::from_u32(0x1_0000 + (high << 10) + low).unwrap());
            i += 2;
        } else {
            text.push(REPLACEMENT_CHARACTER);
            i += 1;
        }
        proof {
            assert(rest.skip(first_width(rest)) =~= units@.skip(i as int));
        }
    }
    text
}

} // verus!
