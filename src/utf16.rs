use vstd::prelude::*;

verus! {

/// The UTF-16 code units of one character: the scalar value itself below
/// 0x10000, otherwise a high and a low surrogate.
pub open spec fn utf16_units(c: char) -> Seq<u16> {
    let v = c as u32;
    if v < 0x10000 {
        seq![v as u16]
    } else {
        let w = (v - 0x10000) as u32;
        seq![(0xD800 + w / 0x400) as u16, (0xDC00 + w % 0x400) as u16]
    }
}

/// The UTF-16 encoding of a character sequence.
pub open spec fn utf16_of(s: Seq<char>) -> Seq<u16>
    decreases s.len(),
{
    if s.len() == 0 {
        Seq::empty()
    } else {
        utf16_of(s.drop_last()) + utf16_units(s.last())
    }
}

/// Relies on str::encode_utf16: the UTF-16 code units of `s`, in order.
#[verifier::external_body]
fn encode_utf16(s: &str) -> (r: Vec<u16>)
    ensures
        r@ == utf16_of(s@),
{
    s.encode_utf16().collect()
}

/// The UTF-16 encoding of `src` followed by a terminating zero unit.
pub fn to_utf16(src: &str) -> (r: Vec<u16>)
    ensures
        r@ == utf16_of(src@).push(0u16),
{
    let mut units = encode_utf16(src);
    units.push(0u16);
    units
}

} // verus!
