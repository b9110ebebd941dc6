//! Windows over UTF-8 text, counted in characters and cut at exact byte offsets.

use vstd::prelude::*;
use vstd::utf8::*;
use vstd::string::*;

verus! {

/// The number of characters that a window of `n` characters really covers in a
/// text of `len` characters.
pub open spec fn clamp(n: int, len: int) -> int {
    if n < 0 {
        0
    } else if n < len {
        n
    } else {
        len
    }
}

/// The first `n` characters of `s`, or all of `s` where it is shorter.
pub open spec fn prefix(s: Seq<char>, n: int) -> Seq<char> {
    s.take(clamp(n, s.len() as int))
}

/// What is left of `s` behind its first `n` characters.
pub open spec fn suffix(s: Seq<char>, n: int) -> Seq<char> {
    s.skip(clamp(n, s.len() as int))
}

/// The number of bytes that the first `n` characters of `s` take in UTF-8.
pub open spec fn byte_offset(s: Seq<char>, n: int) -> int {
    encode_utf8(prefix(s, n)).len() as int
}

/// `char::len_utf8` gives the number of bytes that the character takes when
/// it is encoded in UTF-8.
pub assume_specification[ char::len_utf8 ](c: char) -> (n: usize)
    ensures
        n == encode_utf8(seq![c]).len(),
;

/// A single character is encoded as its scalar value.
pub proof fn lemma_encode_one(c: char)
    ensures
        encode_utf8(seq![c]) =~= encode_scalar(c as u32),
        1 <= encode_utf8(seq![c]).len() <= 4,
{
    reveal_with_fuel(encode_utf8, 2);
    assert(seq![c].drop_first() =~= Seq::<char>::empty());
}

/// The encoding of a text is the encoding of its first `k` characters followed
/// by the encoding of the rest, and the place where the two meet is a
/// character boundary.
pub proof fn lemma_encode_split(chars: Seq<char>, k: int)
    requires
        0 <= k <= chars.len(),
    ensures
        encode_utf8(chars) =~= encode_utf8(chars.take(k)) + encode_utf8(chars.skip(k)),
        is_char_boundary(encode_utf8(chars), encode_utf8(chars.take(k)).len() as int),
    decreases k,
{
    let bytes = encode_utf8(chars);
    encode_utf8_valid_utf8(chars);
    if k == 0 {
        assert(chars.take(0) =~= Seq::<char>::empty());
        assert(chars.skip(0) =~= chars);
    } else {
        let rest = chars.drop_first();
        let head = chars.take(k);
        assert(head.drop_first() =~= rest.take(k - 1));
        assert(head[0] == chars[0]);
        assert(chars.skip(k) =~= rest.skip(k - 1));
        lemma_encode_split(rest, k - 1);
        encode_utf8_first_scalar(chars);
        lemma_encode_one(chars[0]);
        assert(pop_first_scalar(bytes) =~= encode_utf8(rest));
        let at = encode_utf8(head).len() as int;
        assert(at == encode_scalar(chars[0] as u32).len() + encode_utf8(rest.take(k - 1)).len());
        assert(at <= bytes.len());
        assert(is_char_boundary(bytes, at));
    }
}

/// A text is determined by its UTF-8 encoding.
pub proof fn lemma_encode_injective(a: Seq<char>, b: Seq<char>)
    requires
        encode_utf8(a) == encode_utf8(b),
    ensures
        a == b,
{
    encode_utf8_decode_utf8(a);
    encode_utf8_decode_utf8(b);
}

/// Appending one character appends its encoding.
pub proof fn lemma_encode_push(chars: Seq<char>, k: int)
    requires
        0 <= k < chars.len(),
    ensures
        encode_utf8(chars.take(k + 1)).len() == encode_utf8(chars.take(k)).len() + encode_utf8(
            seq![chars[k]],
        ).len(),
        encode_utf8(chars.take(k + 1)).len() <= encode_utf8(chars).len(),
{
    let longer = chars.take(k + 1);
    lemma_encode_split(longer, k);
    assert(longer.take(k) =~= chars.take(k));
    assert(longer.skip(k) =~= seq![chars[k]]);
    lemma_encode_split(chars, k + 1);
}

/// The number of characters in `s`.
pub fn count_chars(s: &str) -> (n: usize)
    ensures
        n == s@.len(),
{
    s.unicode_len()
}

/// The number of bytes that the first `n` characters of `s` take.
pub fn size(s: &str, n: usize) -> (at: usize)
    ensures
        at == byte_offset(s@, n as int),
        at <= s.spec_bytes().len(),
        is_char_boundary(s.spec_bytes(), at as int),
{
    let count = s.unicode_len();
    let bytes = s.as_bytes();
    let limit = bytes.len();
    let k = if n < count {
        n
    } else {
        count
    };
    let mut at: usize = 0;
    let mut i: usize = 0;
    proof {
        assert(s@.take(0) =~= Seq::<char>::empty());
    }
    while i < k
        invariant
            i <= k <= s@.len(),
            limit == encode_utf8(s@).len(),
            at == encode_utf8(s@.take(i as int)).len(),
            at <= limit,
        decreases k - i,
    {
        let c = s.get_char(i);
        proof {
            lemma_encode_push(s@, i as int);
        }
        at = at + c.len_utf8();
        i = i + 1;
    }
    proof {
        lemma_encode_split(s@, k as int);
    }
    at
}

/// What is left of `s` behind its first `n` characters; all of it is dropped
/// where `s` has fewer.
pub fn slice_from<'a>(s: &'a str, n: usize) -> (tail: &'a str)
    ensures
        tail@ == suffix(s@, n as int),
        tail.spec_bytes() == s.spec_bytes().skip(byte_offset(s@, n as int)),
{
    let at = size(s, n);
    let (_, tail) = s.split_at(at);
    proof {
        let k = clamp(n as int, s@.len() as int);
        lemma_encode_split(s@, k);
        let rest = s@.skip(k);
        assert(tail.spec_bytes() =~= encode_utf8(rest));
        lemma_encode_injective(tail@, rest);
        assert(tail.spec_bytes() =~= s.spec_bytes().skip(at as int));
    }
    tail
}

/// The first `n` characters of `s`; all of `s` where it has fewer.
pub fn slice_to<'a>(s: &'a str, n: usize) -> (head: &'a str)
    ensures
        head@ == prefix(s@, n as int),
        head.spec_bytes() == s.spec_bytes().take(byte_offset(s@, n as int)),
{
    let at = size(s, n);
    let (head, _) = s.split_at(at);
    proof {
        let k = clamp(n as int, s@.len() as int);
        lemma_encode_split(s@, k);
        let front = s@.take(k);
        assert(head.spec_bytes() =~= encode_utf8(front));
        lemma_encode_injective(head@, front);
        assert(head.spec_bytes() =~= s.spec_bytes().take(at as int));
    }
    head
}

} // verus!
