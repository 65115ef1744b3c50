//! UTF-16 encoding of Unicode scalar values.
use vstd::prelude::*;
use vstd::utf8::{char_is_scalar, char_u32_cast, encode_scalar, encode_utf8};

verus! {

/// The UTF-16 code units of one `char`: the value itself below U+10000,
/// else a surrogate pair.
pub open spec fn char_utf16(c: char) -> Seq<u16> {
    let v = c as u32;
    if v < 0x10000 {
        seq![v as u16]
    } else {
        let w = (v - 0x10000) as u32;
        seq![(0xD800 + w / 0x400) as u16, (0xDC00 + w % 0x400) as u16]
    }
}

/// The UTF-16 code units of a sequence of `char`s.
pub open spec fn encode_utf16(chars: Seq<char>) -> Seq<u16>
    decreases chars.len(),
{
    if chars.len() == 0 {
        seq![]
    } else {
        char_utf16(chars[0]) + encode_utf16(chars.drop_first())
    }
}

/// The `char`s of a sequence of UTF-16 code units: a unit outside the
/// surrogate range is one char; a high surrogate (0xD800 to 0xDBFF) followed
/// by a low surrogate (0xDC00 to 0xDFFF) is the char
/// `0x10000 + (high - 0xD800) * 0x400 + (low - 0xDC00)`. `None` where a
/// surrogate is not part of such a pair.
pub open spec fn decode_utf16(units: Seq<u16>) -> Option<Seq<char>>
    decreases units.len(),
{
    if units.len() == 0 {
        Some(Seq::empty())
    } else {
        let high = units[0] as u32;
        if high < 0xD800 || 0xDFFF < high {
            match decode_utf16(units.drop_first()) {
                Some(rest) => Some(seq![high as char] + rest),
                None => None,
            }
        } else if high <= 0xDBFF && units.len() >= 2 && 0xDC00 <= units[1] <= 0xDFFF {
            let low = units[1] as u32;
            let v = (0x10000 + (high - 0xD800) * 0x400 + (low - 0xDC00)) as u32;
            match decode_utf16(units.subrange(2, units.len() as int)) {
                Some(rest) => Some(seq![v as char] + rest),
                None => None,
            }
        } else {
            None
        }
    }
}

/// Decoding the UTF-16 encoding of a sequence of `char`s gives it back.
pub proof fn lemma_decode_encode_utf16(chars: Seq<char>)
    ensures
        decode_utf16(encode_utf16(chars)) == Some(chars),
    decreases chars.len(),
{
    if chars.len() > 0 {
        let c = chars[0];
        let v = c as u32;
        let rest = chars.drop_first();
        let units = encode_utf16(chars);
        lemma_decode_encode_utf16(rest);
        char_is_scalar(c);
        assert(units == char_utf16(c) + encode_utf16(rest));
        if v < 0x10000 {
            assert(units[0] as u32 == v);
            assert(units.drop_first() =~= encode_utf16(rest));
            char_u32_cast(c, v);
            assert(seq![c] + rest =~= chars);
        } else {
            let w = (v - 0x10000) as u32;
            let high = (0xD800 + w / 0x400) as u16;
            let low = (0xDC00 + w % 0x400) as u16;
            assert(w <= 0xFFFFF);
            assert(0 <= w % 0x400 < 0x400 && w / 0x400 <= 0x3FF && (w / 0x400) * 0x400 + w % 0x400
                == w) by (nonlinear_arith)
                requires
                    w <= 0xFFFFF,
            ;
            assert(units[0] == high);
            assert(units[1] == low);
            assert(units.subrange(2, units.len() as int) =~= encode_utf16(rest));
            assert((0x10000 + (high as u32 - 0xD800) * 0x400 + (low as u32 - 0xDC00)) as u32 == v);
            char_u32_cast(c, v);
            assert(seq![c] + rest =~= chars);
        }
    }
}

/// Encoding a concatenation encodes each part in turn.
pub proof fn lemma_encode_utf16_concat(a: Seq<char>, b: Seq<char>)
    ensures
        encode_utf16(a + b) == encode_utf16(a) + encode_utf16(b),
    decreases a.len(),
{
    if a.len() == 0 {
        assert(a + b =~= b);
    } else {
        lemma_encode_utf16_concat(a.drop_first(), b);
        assert((a + b).drop_first() =~= a.drop_first() + b);
        assert(encode_utf16(a + b) =~= encode_utf16(a) + encode_utf16(b));
    }
}

/// Encoding the first `k + 1` chars appends the units of char `k`.
pub proof fn lemma_encode_utf16_prefix(chars: Seq<char>, k: int)
    requires
        0 <= k < chars.len(),
    ensures
        encode_utf16(chars.take(k + 1)) == encode_utf16(chars.take(k)) + char_utf16(chars[k]),
{
    assert(chars.take(k + 1) =~= chars.take(k) + seq![chars[k]]);
    lemma_encode_utf16_concat(chars.take(k), seq![chars[k]]);
    let one = seq![chars[k]];
    assert(one.drop_first() =~= Seq::<char>::empty());
    assert(encode_utf16(one.drop_first()) =~= Seq::<u16>::empty());
    assert(one[0] == chars[k]);
    assert(encode_utf16(one) =~= char_utf16(chars[k]));
}

/// The encoding of a prefix is no longer than the encoding of the whole.
pub proof fn lemma_encode_utf16_prefix_len_le(chars: Seq<char>, k: int)
    requires
        0 <= k <= chars.len(),
    ensures
        encode_utf16(chars.take(k)).len() <= encode_utf16(chars).len(),
{
    lemma_encode_utf16_concat(chars.take(k), chars.skip(k));
    assert(chars.take(k) + chars.skip(k) =~= chars);
}

/// A char never takes more UTF-16 code units than UTF-8 bytes.
pub proof fn lemma_encode_utf16_len_le_utf8(chars: Seq<char>)
    ensures
        encode_utf16(chars).len() <= encode_utf8(chars).len(),
    decreases chars.len(),
{
    if chars.len() > 0 {
        lemma_encode_utf16_len_le_utf8(chars.drop_first());
        let v = chars[0] as u32;
        assert(char_utf16(chars[0]).len() <= encode_scalar(v).len());
    }
}

/// The UTF-16 code units of one `char`: its count, then the units.
pub fn char_to_utf16(c: char) -> (r: (usize, u16, u16))
    ensures
        1 <= r.0 <= 2,
        r.0 == char_utf16(c).len(),
        r.1 == char_utf16(c)[0],
        r.0 == 2 ==> r.2 == char_utf16(c)[1],
{
    let v = c as u32;
    if v < 0x10000 {
        (1, v as u16, 0)
    } else {
        let w = v - 0x10000;
        (2, (0xD800 + w / 0x400) as u16, (0xDC00 + w % 0x400) as u16)
    }
}

/// The number of UTF-16 code units of a string.
pub fn utf16_len(s: &str) -> (r: usize)
    ensures
        r == encode_utf16(s@).len(),
{
    let bytes = s.as_bytes();
    let _byte_len = bytes.len();
    proof {
        lemma_encode_utf16_len_le_utf8(s@);
    }
    let mut n: usize = 0;
    for c in it: s.chars()
        invariant
            it.seq() == s@,
            n == encode_utf16(s@.take(it.index())).len(),
            encode_utf16(s@).len() <= usize::MAX,
    {
        proof {
            lemma_encode_utf16_prefix(s@, it.index());
            lemma_encode_utf16_concat(s@.take(it.index() + 1), s@.skip(it.index() + 1));
            assert(s@.take(it.index() + 1) + s@.skip(it.index() + 1) =~= s@);
        }
        let (units, _, _) = char_to_utf16(c);
        n = n + units;
    }
    proof {
        assert(s@.take(s@.len() as int) =~= s@);
    }
    n
}

} // verus!
