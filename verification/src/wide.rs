//! Strings as the Windows API takes them: UTF-16, ending in a NUL unit.
use vstd::prelude::*;

verus! {

/// The UTF-16 code units of one character: itself below `0x10000`, a
/// surrogate pair above.
pub open spec fn utf16_units(c: char) -> Seq<u16> {
    let v = c as u32;
    if v < 0x10000 {
        seq![v as u16]
    } else {
        let u = (v - 0x10000) as u32;
        seq![(0xD800 + u / 0x400) as u16, (0xDC00 + u % 0x400) as u16]
    }
}

/// The UTF-16 code units of a string.
pub open spec fn utf16_of(s: Seq<char>) -> Seq<u16>
    decreases s.len(),
{
    if s.len() == 0 {
        seq![]
    } else {
        utf16_of(s.drop_last()) + utf16_units(s.last())
    }
}

/// The string in UTF-16, with a NUL unit at the end.
pub fn to_wide_string(s: &str) -> (w: Vec<u16>)
    ensures
        w@ == utf16_of(s@).push(0u16),
{
    broadcast use vstd::string::axiom_spec_iter;

    let mut w: Vec<u16> = Vec::new();
    for c in it: s.chars()
        invariant
            it.seq() == s@,
            w@ == utf16_of(s@.take(it.index() as int)),
    {
        proof {
            assert(s@.take(it.index() + 1).drop_last() =~= s@.take(it.index() as int));
        }
        let v = c as u32;
        if v < 0x10000 {
            w.push(v as u16);
        } else {
            let u = v - 0x10000;
            w.push((0xD800 + u / 0x400) as u16);
            w.push((0xDC00 + u % 0x400) as u16);
        }
    }
    proof {
        assert(s@.take(s@.len() as int) =~= s@);
    }
    w.push(0);
    w
}

} // verus!
