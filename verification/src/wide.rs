//! Marshaling of text into the null-terminated wide-character (UTF-16)
//! form that the host text API expects.

use vstd::prelude::*;

verus! {

/// The UTF-16 code units of one character: the scalar value itself for
/// characters below `0x10000`, and a high/low surrogate pair otherwise.
pub open spec fn utf16_units(c: char) -> Seq<u16> {
    let u = c as u32;
    if u < 0x10000 {
        seq![u as u16]
    } else {
        let v = (u - 0x10000) as u32;
        seq![(0xD800 + (v >> 10)) as u16, (0xDC00 + (v & 0x3FF)) as u16]
    }
}

/// The UTF-16 encoding of a character sequence, unit by unit.
pub open spec fn utf16_encode(s: Seq<char>) -> Seq<u16>
    decreases s.len(),
{
    if s.len() == 0 {
        Seq::empty()
    } else {
        utf16_units(s[0]) + utf16_encode(s.drop_first())
    }
}

/// The wide form handed to the host: the UTF-16 encoding followed by a
/// single terminating zero unit.
pub open spec fn wide_null(s: Seq<char>) -> Seq<u16> {
    utf16_encode(s).push(0)
}

/// Appending one character to a sequence appends its code units to the
/// sequence's encoding.
proof fn lemma_utf16_encode_push(s: Seq<char>, c: char)
    ensures
        utf16_encode(s.push(c)) == utf16_encode(s) + utf16_units(c),
    decreases s.len(),
{
    if s.len() == 0 {
        assert(s.push(c)[0] == c);
        assert(s.push(c).drop_first() =~= s);
        assert(utf16_encode(s) =~= Seq::<u16>::empty());
        assert(utf16_encode(s.push(c)) =~= utf16_encode(s) + utf16_units(c));
    } else {
        assert(s.push(c)[0] == s[0]);
        assert(s.push(c).drop_first() =~= s.drop_first().push(c));
        lemma_utf16_encode_push(s.drop_first(), c);
        assert(utf16_encode(s.push(c)) =~= utf16_encode(s) + utf16_units(c));
    }
}

/// Encodes `v` as a null-terminated sequence of 16-bit code units: the
/// UTF-16 encoding of the text followed by one zero terminator.  Always
/// succeeds; the text is passed through verbatim, without sanitization.
pub fn win32_str(v: &str) -> (r: Vec<u16>)
    ensures
        r@ == wide_null(v@),
        r@.len() == utf16_encode(v@).len() + 1,
        r@[r@.len() - 1] == 0,
{
    broadcast use vstd::utf8::char_is_scalar;

    let n = v.unicode_len();
    let mut out: Vec<u16> = Vec::new();
    let mut i: usize = 0;
    while i < n
        invariant
            i <= n,
            n == v@.len(),
            out@ == utf16_encode(v@.take(i as int)),
        decreases n - i,
    {
        let c = v.get_char(i);
        let u = c as u32;
        if u < 0x10000 {
            out.push(u as u16);
        } else {
            let w: u32 = u - 0x10000;
            assert(w <= 0xFFFFF);
            assert(w <= 0xFFFFF ==> (w >> 10) <= 0x3FF && (w & 0x3FF) <= 0x3FF) by (bit_vector);
            out.push((0xD800 + (w >> 10)) as u16);
            out.push((0xDC00 + (w & 0x3FF)) as u16);
        }
        proof {
            assert(v@.take(i + 1) =~= v@.take(i as int).push(v@[i as int]));
            lemma_utf16_encode_push(v@.take(i as int), v@[i as int]);
        }
        i += 1;
    }
    proof {
        assert(v@.take(n as int) =~= v@);
    }
    out.push(0);
    out
}

} // verus!
