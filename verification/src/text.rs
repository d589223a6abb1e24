use vstd::prelude::*;
use vstd::bytes::{spec_u32_to_le_bytes, u32_to_le_bytes};
use vstd::string::StringExecFns;
use crate::error::{Mt5Error, decimal_usize, invalid_error};

verus! {

/// UTF-16 code units of one character.
pub open spec fn utf16_of_char(c: char) -> Seq<u16> {
    let v = c as u32;
    if v < 0x10000 {
        seq![v as u16]
    } else {
        let w = (v - 0x10000) as u32;
        seq![(0xD800 + w / 0x400) as u16, (0xDC00 + w % 0x400) as u16]
    }
}

/// UTF-16 encoding of a character sequence.
pub open spec fn utf16_encode(s: Seq<char>) -> Seq<u16>
    decreases s.len(),
{
    if s.len() == 0 {
        Seq::empty()
    } else {
        utf16_encode(s.drop_last()) + utf16_of_char(s.last())
    }
}

/// The UTF-16 code units of `s`, in order.
pub fn encode_utf16(s: &str) -> (units: Vec<u16>)
    ensures
        units@ == utf16_encode(s@),
{
    let mut units: Vec<u16> = Vec::new();
    for c in it: s.chars()
        invariant
            it.seq() == s@,
            units@ == utf16_encode(s@.take(it.index())),
    {
        let ghost i = it.index();
        assert(s@.take(i + 1).drop_last() == s@.take(i));
        assert(s@.take(i + 1).last() == c);
        let v: u32 = c as u32;
        if v < 0x10000 {
            units.push(v as u16);
        } else {
            let w: u32 = v - 0x10000;
            units.push((0xD800 + w / 0x400) as u16);
            units.push((0xDC00 + w % 0x400) as u16);
        }
    }
    assert(s@.take(s@.len() as int) == s@);
    units
}


/// Whether every character of `cs` is a Unicode scalar value (a code point
/// of at most 0x10FFFF outside the surrogate range), as every `char` is.
pub open spec fn is_scalar_text(cs: Seq<char>) -> bool {
    forall|i: int|
        0 <= i < cs.len() ==> (#[trigger] cs[i] as u32) <= 0x10FFFF && !(0xD800 <= (cs[i] as u32)
            <= 0xDFFF)
}

/// Whether `u` lies in the UTF-16 surrogate range.
pub open spec fn is_surrogate(u: u16) -> bool {
    0xD800 <= u <= 0xDFFF
}

/// Whether `u` is a leading (high) surrogate.
pub open spec fn is_high_surrogate(u: u16) -> bool {
    0xD800 <= u <= 0xDBFF
}

/// Whether `u` is a trailing (low) surrogate.
pub open spec fn is_low_surrogate(u: u16) -> bool {
    0xDC00 <= u <= 0xDFFF
}

/// Lossy UTF-16 decoding: a leading surrogate followed by a trailing one
/// is one character, a unit outside the surrogate range is that
/// character, and any other surrogate is U+FFFD (decoding resumes at the
/// next unit).
pub open spec fn utf16_decode(units: Seq<u16>) -> Seq<char>
    decreases units.len(),
{
    if units.len() == 0 {
        Seq::empty()
    } else if units.len() >= 2 && is_high_surrogate(units[0]) && is_low_surrogate(units[1]) {
        seq![(0x10000 + (units[0] - 0xD800) * 0x400 + (units[1] - 0xDC00)) as char]
            + utf16_decode(units.skip(2))
    } else if is_surrogate(units[0]) {
        seq!['\u{FFFD}'] + utf16_decode(units.skip(1))
    } else {
        seq![units[0] as char] + utf16_decode(units.skip(1))
    }
}

/// Calls `String::from_utf16_lossy`, which its documentation describes as
/// decoding UTF-16 with unpaired surrogates replaced by U+FFFD; trusted to
/// return `utf16_decode(units)`.
#[verifier::external_body]
pub(crate) fn string_from_utf16_lossy(units: &[u16]) -> (s: String)
    ensures
        s@ == utf16_decode(units@),
{
    String::from_utf16_lossy(units)
}

/// The UTF-16 form of a character followed by `rest`.
pub proof fn lemma_utf16_encode_cons(c: char, rest: Seq<char>)
    ensures
        utf16_encode(seq![c] + rest) == utf16_of_char(c) + utf16_encode(rest),
    decreases rest.len(),
{
    let s = seq![c] + rest;
    if rest.len() == 0 {
        assert(s == seq![c]);
        assert(s.drop_last() == Seq::<char>::empty());
        assert(utf16_encode(s) == utf16_encode(s.drop_last()) + utf16_of_char(s.last()));
        assert(utf16_encode(s) == utf16_of_char(c) + utf16_encode(rest));
    } else {
        lemma_utf16_encode_cons(c, rest.drop_last());
        assert(s.drop_last() == seq![c] + rest.drop_last());
        assert(s.last() == rest.last());
        let a = utf16_of_char(c);
        let b = utf16_encode(rest.drop_last());
        let d = utf16_of_char(rest.last());
        assert(utf16_encode(s) == (a + b) + d);
        assert(utf16_encode(rest) == b + d);
        assert((a + b) + d == a + (b + d));
    }
}

/// Decoding the UTF-16 form of a Unicode scalar value, followed by
/// anything, yields that character first.
pub proof fn lemma_utf16_decode_char(c: char, rest: Seq<u16>)
    requires
        (c as u32) <= 0x10FFFF && !(0xD800 <= (c as u32) <= 0xDFFF),
    ensures
        utf16_decode(utf16_of_char(c) + rest) == seq![c] + utf16_decode(rest),
{
    let v = c as u32;
    let u = utf16_of_char(c) + rest;
    if v < 0x10000 {
        assert(u[0] == v as u16);
        assert(!is_surrogate(u[0]));
        assert(u.skip(1) == rest);
        assert(((v as u16) as char) == c);
    } else {
        let w = (v - 0x10000) as u32;
        let hi = (0xD800 + w / 0x400) as u16;
        let lo = (0xDC00 + w % 0x400) as u16;
        assert(w / 0x400 < 0x400);
        assert(u[0] == hi && u[1] == lo);
        assert(is_high_surrogate(hi) && is_low_surrogate(lo));
        assert(u.skip(2) == rest);
        assert((hi - 0xD800) * 0x400 + (lo - 0xDC00) == w);
        assert(((0x10000 + w) as char) == c);
    }
}

/// Decoding the UTF-16 form of a text of Unicode scalar values gives the
/// text back.
pub proof fn lemma_utf16_round_trip(cs: Seq<char>)
    requires
        is_scalar_text(cs),
    ensures
        utf16_decode(utf16_encode(cs)) == cs,
    decreases cs.len(),
{
    if cs.len() == 0 {
        assert(utf16_encode(cs) == Seq::<u16>::empty());
    } else {
        let rest = cs.drop_first();
        assert(cs == seq![cs[0]] + rest);
        lemma_utf16_encode_cons(cs[0], rest);
        assert(is_scalar_text(rest)) by {
            assert forall|i: int| 0 <= i < rest.len() implies (#[trigger] rest[i] as u32) <= 0x10FFFF
                && !(0xD800 <= (rest[i] as u32) <= 0xDFFF) by {
                assert(rest[i] == cs[i + 1]);
            }
        }
        assert((cs[0] as u32) <= 0x10FFFF && !(0xD800 <= (cs[0] as u32) <= 0xDFFF));
        lemma_utf16_decode_char(cs[0], utf16_encode(rest));
        lemma_utf16_round_trip(rest);
    }
}

/// The UTF-16 code unit stored little-endian at byte offset `i` of `b`.
pub open spec fn unit_at(b: Seq<u8>, i: int) -> u16 {
    (b[i] as int + 256 * b[i + 1] as int) as u16
}

/// The UTF-16 code units stored little-endian in `b`, up to (not including)
/// the first NUL unit or the last whole unit.
pub open spec fn utf16_units(b: Seq<u8>) -> Seq<u16>
    decreases b.len(),
{
    if b.len() < 2 {
        Seq::empty()
    } else if unit_at(b, 0) == 0 {
        Seq::empty()
    } else {
        seq![unit_at(b, 0)] + utf16_units(b.skip(2))
    }
}

/// The text held by the `slot`-byte UTF-16LE field at offset `off` of `d`.
pub open spec fn fixed_string_spec(d: Seq<u8>, off: int, slot: int) -> Seq<char> {
    utf16_decode(utf16_units(d.subrange(off, off + slot)))
}

/// `s` is the text of the `slot`-byte UTF-16LE field at offset `off` of
/// `d`: what lossy UTF-16 decoding makes of its code units, which are the
/// characters whose UTF-16 form those units are, where there are such.
pub open spec fn slot_text(s: Seq<char>, d: Seq<u8>, off: int, slot: int) -> bool {
    &&& s == fixed_string_spec(d, off, slot)
    &&& forall|cs: Seq<char>|
        is_scalar_text(cs) && #[trigger] utf16_encode(cs) == utf16_units(d.subrange(off, off + slot))
            ==> s == cs
}

/// Decodes the UTF-16LE text in `data[start..start + len]`, up to its first NUL unit.
pub fn read_utf16_slot(data: &[u8], start: usize, len: usize) -> (r: String)
    requires
        start + len <= data@.len(),
    ensures
        r@ == fixed_string_spec(data@, start as int, len as int),
        forall|cs: Seq<char>|
            is_scalar_text(cs) && #[trigger] utf16_encode(cs) == utf16_units(
                data@.subrange(start as int, start + len),
            ) ==> r@ == cs,
{
    let ghost b = data@.subrange(start as int, start + len);
    let mut units: Vec<u16> = Vec::new();
    let mut i: usize = 0;
    let mut done = false;
    assert(b.skip(0) == b);
    while !done && len - i > 1
        invariant
            start + len <= data.len(),
            b == data@.subrange(start as int, start + len),
            i <= len,
            done ==> units@ == utf16_units(b),
            !done ==> units@ + utf16_units(b.skip(i as int)) == utf16_units(b),
        decreases len - i, (if done { 0int } else { 1int }),
    {
        let c: u16 = (data[start + i] as u16) + 256 * (data[start + i + 1] as u16);
        assert(b.skip(i as int)[0] == data@[start + i]);
        assert(b.skip(i as int)[1] == data@[start + i + 1]);
        assert(c == unit_at(b.skip(i as int), 0));
        if c == 0 {
            assert(utf16_units(b.skip(i as int)) == Seq::<u16>::empty());
            assert(units@ + Seq::<u16>::empty() == units@);
            done = true;
        } else {
            assert(b.skip(i as int).skip(2) == b.skip(i + 2));
            assert(units@.push(c) + utf16_units(b.skip(i + 2)) == units@ + utf16_units(
                b.skip(i as int),
            ));
            units.push(c);
            i = i + 2;
        }
    }
    proof {
        if !done {
            assert(utf16_units(b.skip(i as int)) == Seq::<u16>::empty());
            assert(units@ + Seq::<u16>::empty() == units@);
        }
    }
    let r = string_from_utf16_lossy(units.as_slice());
    assert forall|cs: Seq<char>|
        is_scalar_text(cs) && #[trigger] utf16_encode(cs) == utf16_units(
            data@.subrange(start as int, start + len),
        ) implies r@ == cs by {
        lemma_utf16_round_trip(cs);
    }
    r
}


/// Little-endian bytes of a sequence of UTF-16 code units.
pub open spec fn units_le(units: Seq<u16>) -> Seq<u8>
    decreases units.len(),
{
    if units.len() == 0 {
        Seq::empty()
    } else {
        units_le(units.drop_last()) + seq![(units.last() % 256) as u8, (units.last() / 256) as u8]
    }
}

/// The wire form of a string argument: the number of UTF-16 code units as a
/// little-endian `u32`, then the code units, little-endian.
pub open spec fn encoded_string(s: Seq<char>) -> Seq<u8> {
    spec_u32_to_le_bytes(utf16_encode(s).len() as u32) + units_le(utf16_encode(s))
}

/// Appends the little-endian bytes of `units` to `out`.
pub(crate) fn push_units_le(out: &mut Vec<u8>, units: &Vec<u16>)
    ensures
        final(out)@ == old(out)@ + units_le(units@),
{
    let ghost start = out@;
    let mut i: usize = 0;
    while i < units.len()
        invariant
            i <= units@.len(),
            out@ == start + units_le(units@.take(i as int)),
        decreases units@.len() - i,
    {
        let c = units[i];
        assert(units@.take(i + 1).drop_last() == units@.take(i as int));
        out.push((c % 256) as u8);
        out.push((c / 256) as u8);
        i = i + 1;
    }
    assert(units@.take(units@.len() as int) == units@);
}

/// Encodes a string argument of a command (see `encoded_string`).
pub fn encode_string(s: &str) -> (data: Vec<u8>)
    ensures
        data@ == encoded_string(s@),
{
    let units = encode_utf16(s);
    let mut data = u32_to_le_bytes(units.len() as u32);
    push_units_le(&mut data, &units);
    data
}

/// `slot` after the UTF-16LE units of a string are written into it: as many
/// whole units as fit, from the start; the other bytes are left as they were.
pub open spec fn slot_with_units(slot: Seq<u8>, units: Seq<u16>) -> Seq<u8> {
    let n = if units.len() < slot.len() / 2 { units.len() as int } else { (slot.len() / 2) as int };
    Seq::new(
        slot.len(),
        |j: int|
            if j < 2 * n {
                if j % 2 == 0 {
                    (units[j / 2] % 256) as u8
                } else {
                    (units[j / 2] / 256) as u8
                }
            } else {
                slot[j]
            },
    )
}

/// Writes `s` as UTF-16LE into the fixed-width field `slot`, truncating to
/// the whole code units that fit.
pub fn encode_fixed_string(slot: &mut Vec<u8>, s: &str)
    ensures
        final(slot)@ == slot_with_units(old(slot)@, utf16_encode(s@)),
{
    let units = encode_utf16(s);
    let half = slot.len() / 2;
    let n = if units.len() < half { units.len() } else { half };
    let ghost orig = slot@;
    let mut i: usize = 0;
    while i < n
        invariant
            n <= units@.len(),
            n <= orig.len() / 2,
            orig.len() <= usize::MAX,
            n == (if units@.len() < orig.len() / 2 { units@.len() as int } else { (orig.len() / 2) as int }),
            i <= n,
            slot@.len() == orig.len(),
            forall|j: int|
                0 <= j < orig.len() ==> #[trigger] slot@[j] == (if j < 2 * i {
                    if j % 2 == 0 {
                        (units@[j / 2] % 256) as u8
                    } else {
                        (units@[j / 2] / 256) as u8
                    }
                } else {
                    orig[j]
                }),
        decreases n - i,
    {
        let c = units[i];
        assert(2 * i + 1 < orig.len());
        slot.set(2 * i, (c % 256) as u8);
        slot.set(2 * i + 1, (c / 256) as u8);
        i = i + 1;
    }
    assert(slot@ == slot_with_units(orig, utf16_encode(s@)));
}

/// Decodes the `slot_bytes`-byte UTF-16LE field at `start` of `data`.
pub fn decode_fixed_string(data: &[u8], start: usize, slot_bytes: usize) -> (r: Result<String, Mt5Error>)
    ensures
        r is Ok <==> start + slot_bytes <= data@.len(),
        r matches Ok(s) ==> s@ == fixed_string_spec(data@, start as int, slot_bytes as int),
        r matches Ok(s) ==> forall|cs: Seq<char>|
            is_scalar_text(cs) && #[trigger] utf16_encode(cs) == utf16_units(
                data@.subrange(start as int, start + slot_bytes),
            ) ==> s@ == cs,
        r matches Err(e) ==> exists|a: Seq<char>, b: Seq<char>, c: Seq<char>|
            decimal_usize(start, a) && decimal_usize(slot_bytes, b)
                && decimal_usize(data@.len() as usize, c) && invalid_error(
                e,
                "string slot out of bounds: start="@ + a + " slot="@ + b + " len="@ + c,
            ),
{
    if start > data.len() || slot_bytes > data.len() - start {
        let start_text = start.to_string();
        let slot_len_text = slot_bytes.to_string();
        let len_text = data.len().to_string();
        let mut msg = String::from_str("string slot out of bounds: start=");
        msg.append(start_text.as_str());
        msg.append(" slot=");
        msg.append(slot_len_text.as_str());
        msg.append(" len=");
        msg.append(len_text.as_str());
        assert(decimal_usize(start, start_text@));
        assert(decimal_usize(slot_bytes, slot_len_text@));
        assert(decimal_usize(data@.len() as usize, len_text@));
        return Err(Mt5Error::InvalidResponse(msg));
    }
    Ok(read_utf16_slot(data, start, slot_bytes))
}

/// The text at `offset` of `d`, read as UTF-16LE up to the first NUL unit
/// or the end of the data.
pub open spec fn string_at_spec(d: Seq<u8>, offset: int) -> Seq<char> {
    if offset >= d.len() {
        Seq::empty()
    } else {
        fixed_string_spec(d, offset, d.len() - offset)
    }
}

/// `s` is the text at `offset` of `d` (see `string_at_spec`), with the
/// characters whose UTF-16 form the units there are, where there are such.
pub open spec fn text_at(s: Seq<char>, d: Seq<u8>, offset: int) -> bool {
    if offset >= d.len() {
        s == Seq::<char>::empty()
    } else {
        slot_text(s, d, offset, d.len() - offset)
    }
}

/// Reads the NUL-terminated UTF-16LE text at `offset` of `data`.
pub fn read_string_at_offset(data: &[u8], offset: usize) -> (r: String)
    ensures
        r@ == string_at_spec(data@, offset as int),
        text_at(r@, data@, offset as int),
{
    if offset >= data.len() {
        return String::new();
    }
    read_utf16_slot(data, offset, data.len() - offset)
}


/// No code unit of the UTF-16 form of a text without NUL characters is 0
/// (a char's code point is at most 0x10FFFF).
pub proof fn lemma_utf16_no_zero_unit(s: Seq<char>)
    requires
        forall|i: int| 0 <= i < s.len() ==> 0 < (#[trigger] s[i] as u32) <= 0x10FFFF,
    ensures
        forall|k: int| 0 <= k < utf16_encode(s).len() ==> utf16_encode(s)[k] != 0,
    decreases s.len(),
{
    if s.len() > 0 {
        lemma_utf16_no_zero_unit(s.drop_last());
        let c = s.last();
        assert(s[s.len() - 1] == c);
        assert(0 < (c as u32) <= 0x10FFFF);
        let prefix = utf16_encode(s.drop_last());
        let tail = utf16_of_char(c);
        assert(utf16_encode(s) == prefix + tail);
        assert forall|k: int| 0 <= k < utf16_encode(s).len() implies utf16_encode(s)[k] != 0 by {
            if k >= prefix.len() {
                let v = c as u32;
                if v >= 0x10000 {
                    let w = (v - 0x10000) as u32;
                    assert(0xD800 + w / 0x400 < 0x10000);
                    assert(0xDC00 + w % 0x400 < 0x10000);
                }
            }
        }
    }
}

/// The units read from `b` are exactly `u` when `b` holds the units of `u`
/// little-endian from its start, none of them 0, followed by a 0 unit or by
/// less than a whole unit.
pub proof fn lemma_units_read_back(b: Seq<u8>, u: Seq<u16>)
    requires
        b.len() >= 2 * (u.len() as int),
        forall|k: int| 0 <= k < u.len() ==> unit_at(b, 2 * k) == u[k] && u[k] != 0,
        b.len() < 2 * (u.len() as int) + 2 || unit_at(b, 2 * (u.len() as int)) == 0,
    ensures
        utf16_units(b) == u,
    decreases u.len(),
{
    if u.len() > 0 {
        assert(unit_at(b, 0) == u[0]);
        let rest = b.skip(2);
        let tail = u.drop_first();
        assert forall|k: int| 0 <= k < tail.len() implies unit_at(rest, 2 * k) == tail[k] && tail[k] != 0 by {
            assert(unit_at(b, 2 * (k + 1)) == u[k + 1]);
            assert(rest[2 * k] == b[2 * k + 2]);
            assert(rest[2 * k + 1] == b[2 * k + 3]);
        }
        if rest.len() >= 2 * (tail.len() as int) + 2 {
            assert(rest[2 * (tail.len() as int)] == b[2 * (u.len() as int)]);
            assert(rest[2 * (tail.len() as int) + 1] == b[2 * (u.len() as int) + 1]);
        }
        lemma_units_read_back(rest, tail);
        assert(seq![u[0]] + tail == u);
    }
}

/// A text written into a zeroed slot reads back as the same UTF-16 code
/// units, when it has no NUL character and its UTF-16 form fits the slot
/// (a char's code point is at most 0x10FFFF).
pub proof fn lemma_slot_round_trip(s: Seq<char>, n: nat)
    requires
        utf16_encode(s).len() <= n / 2,
        forall|i: int| 0 <= i < s.len() ==> 0 < (#[trigger] s[i] as u32) <= 0x10FFFF,
    ensures
        utf16_units(slot_with_units(Seq::new(n, |i: int| 0u8), utf16_encode(s))) == utf16_encode(s),
{
    let u = utf16_encode(s);
    let b = slot_with_units(Seq::new(n, |i: int| 0u8), u);
    lemma_utf16_no_zero_unit(s);
    assert forall|k: int| 0 <= k < u.len() implies unit_at(b, 2 * k) == u[k] && u[k] != 0 by {
        assert((2 * k) / 2 == k);
        assert((2 * k + 1) / 2 == k);
        assert(b[2 * k] == (u[k] % 256) as u8);
        assert(b[2 * k + 1] == (u[k] / 256) as u8);
    }
    if b.len() >= 2 * (u.len() as int) + 2 {
        assert(b[2 * (u.len() as int)] == 0);
        assert(b[2 * (u.len() as int) + 1] == 0);
    }
    lemma_units_read_back(b, u);
}

/// The little-endian form of `units` has two bytes per unit.
pub proof fn lemma_units_le_len(units: Seq<u16>)
    ensures
        units_le(units).len() == 2 * units.len(),
    decreases units.len(),
{
    if units.len() > 0 {
        lemma_units_le_len(units.drop_last());
    }
}

/// A string argument is its number of UTF-16 code units, as a
/// little-endian `u32`, followed by two bytes per code unit.
pub proof fn lemma_encoded_string_layout(s: Seq<char>)
    ensures
        encoded_string(s).len() == 4 + 2 * utf16_encode(s).len(),
        encoded_string(s).subrange(0, 4) == spec_u32_to_le_bytes(utf16_encode(s).len() as u32),
        encoded_string(s).subrange(4, encoded_string(s).len() as int) == units_le(utf16_encode(s)),
{
    vstd::bytes::lemma_auto_spec_u32_to_from_le_bytes();
    lemma_units_le_len(utf16_encode(s));
    let a = spec_u32_to_le_bytes(utf16_encode(s).len() as u32);
    let b = units_le(utf16_encode(s));
    assert((a + b).subrange(0, 4) == a);
    assert((a + b).subrange(4, (a + b).len() as int) == b);
}

}
