//! The input's text, a `ropey::Rope` addressed by byte offsets, and the two
//! string operations that the completion logic applies to it.

use ropey::Rope;
use vstd::prelude::*;
use vstd::utf8::*;

verus! {

broadcast use vstd::utf8::group_utf8_lib;

/// `ropey::Rope`, the text of an input.
#[verifier::external_type_specification]
#[verifier::external_body]
pub struct ExRope(Rope);

/// The characters that a rope holds, in order.
pub uninterp spec fn rope_chars(rope: Rope) -> Seq<char>;

/// The UTF-8 bytes of a rope; offsets into the text index these bytes.
pub open spec fn rope_bytes(rope: Rope) -> Seq<u8> {
    encode_utf8(rope_chars(rope))
}

/// `offset` lies within the text and on a character boundary.
pub open spec fn is_offset(rope: Rope, offset: int) -> bool {
    &&& 0 <= offset <= rope_bytes(rope).len()
    &&& is_char_boundary(rope_bytes(rope), offset)
}

/// The characters between two byte offsets of the text.
pub open spec fn text_between(rope: Rope, start: int, end: int) -> Seq<char> {
    decode_utf8(rope_bytes(rope).subrange(start, end))
}

/// The Unicode `White_Space` property, which `char::is_whitespace` tests and
/// `str::trim` strips.
pub open spec fn is_white_space(c: char) -> bool {
    let u = c as u32;
    ||| 0x9 <= u <= 0xD
    ||| u == 0x20
    ||| u == 0x85
    ||| u == 0xA0
    ||| u == 0x1680
    ||| 0x2000 <= u <= 0x200A
    ||| u == 0x2028
    ||| u == 0x2029
    ||| u == 0x202F
    ||| u == 0x205F
    ||| u == 0x3000
}

/// `s` without its leading white space.
pub open spec fn trim_start_chars(s: Seq<char>) -> Seq<char>
    decreases s.len(),
{
    if s.len() > 0 && is_white_space(s[0]) {
        trim_start_chars(s.drop_first())
    } else {
        s
    }
}

/// `s` without its trailing white space.
pub open spec fn trim_end_chars(s: Seq<char>) -> Seq<char>
    decreases s.len(),
{
    if s.len() > 0 && is_white_space(s.last()) {
        trim_end_chars(s.drop_last())
    } else {
        s
    }
}

/// `s` without leading and trailing white space.
pub open spec fn trim_chars(s: Seq<char>) -> Seq<char> {
    trim_end_chars(trim_start_chars(s))
}

/// `Rope::slice(start..end).to_string()`: the slice of the rope between two
/// byte offsets, rendered through its `Display` impl, which writes the
/// slice's chunks in order. Claimed: the UTF-8 encoding of the result is the
/// rope's bytes from `start` to `end`. `Rope::slice` panics when the range is
/// reversed, out of bounds, or not on character boundaries; `requires` rules
/// those inputs out.
#[verifier::external_body]
pub(crate) fn rope_slice_to_string(rope: &Rope, start: usize, end: usize) -> (s: String)
    requires
        start <= end,
        is_offset(*rope, start as int),
        is_offset(*rope, end as int),
    ensures
        encode_utf8(s@) == encode_utf8(rope_chars(*rope)).subrange(start as int, end as int),
{
    rope.slice(start..end).to_string()
}

/// `Rope::len`: the length of the text in bytes. Claimed: the length of the
/// UTF-8 encoding of the rope's characters.
#[verifier::external_body]
pub(crate) fn rope_len(rope: &Rope) -> (n: usize)
    ensures
        n == encode_utf8(rope_chars(*rope)).len(),
{
    rope.len()
}

/// `Rope::is_char_boundary`: whether a byte index starts a character or is
/// the end of the text. Claimed: exactly `is_char_boundary` of the rope's
/// bytes. It panics past the end of the text; `requires` rules that out.
#[verifier::external_body]
pub(crate) fn rope_is_char_boundary(rope: &Rope, byte_idx: usize) -> (b: bool)
    requires
        byte_idx <= rope_bytes(*rope).len(),
    ensures
        b == is_char_boundary(encode_utf8(rope_chars(*rope)), byte_idx as int),
{
    rope.is_char_boundary(byte_idx)
}

/// `Rope::insert`: inserts `text` at a byte index. Claimed: the rope's bytes
/// become those before the index, then the bytes of `text`, then those from
/// the index on. It panics when the index is out of bounds or not on a
/// character boundary; `requires` rules those out.
#[verifier::external_body]
pub(crate) fn rope_insert(rope: &mut Rope, byte_idx: usize, text: &str)
    requires
        is_offset(*old(rope), byte_idx as int),
    ensures
        encode_utf8(rope_chars(*final(rope))) == rope_bytes(*old(rope)).subrange(
            0,
            byte_idx as int,
        ) + encode_utf8(text@) + rope_bytes(*old(rope)).subrange(
            byte_idx as int,
            rope_bytes(*old(rope)).len() as int,
        ),
{
    rope.insert(byte_idx, text)
}

/// `Rope::clone` (derived): a rope sharing the same text. Claimed: it holds
/// the same characters.
#[verifier::external_body]
pub(crate) fn rope_clone(rope: &Rope) -> (copy: Rope)
    ensures
        rope_chars(copy) == rope_chars(*rope),
{
    rope.clone()
}

/// Whether `offset` lies within the text and on a character boundary.
pub fn is_valid_offset(rope: &Rope, offset: usize) -> (valid: bool)
    ensures
        valid == is_offset(*rope, offset as int),
{
    let len = rope_len(rope);
    if offset > len {
        return false;
    }
    rope_is_char_boundary(rope, offset)
}

/// The encoding of a concatenation is the concatenation of the encodings.
pub proof fn lemma_encode_utf8_concat(x: Seq<char>, y: Seq<char>)
    ensures
        encode_utf8(x + y) == encode_utf8(x) + encode_utf8(y),
    decreases x.len(),
{
    if x.len() == 0 {
        assert(x + y =~= y);
        assert(encode_utf8(x) =~= Seq::<u8>::empty());
        assert(encode_utf8(x) + encode_utf8(y) =~= encode_utf8(y));
    } else {
        lemma_encode_utf8_concat(x.drop_first(), y);
        assert((x + y).drop_first() =~= x.drop_first() + y);
        assert((x + y)[0] == x[0]);
        assert(encode_utf8(x + y) =~= encode_scalar(x[0] as u32) + encode_utf8(x.drop_first() + y));
        assert(encode_utf8(x) =~= encode_scalar(x[0] as u32) + encode_utf8(x.drop_first()));
    }
}

/// Inserts `text` at the byte offset `offset` and returns the offset just
/// after the inserted text.
pub(crate) fn insert_text(rope: &mut Rope, offset: usize, text: &str) -> (end: usize)
    requires
        is_offset(*old(rope), offset as int),
    ensures
        rope_chars(*final(rope)) == text_between(*old(rope), 0, offset as int) + text@
            + text_between(*old(rope), offset as int, rope_bytes(*old(rope)).len() as int),
        end == offset + encode_utf8(text@).len(),
        is_offset(*final(rope), end as int),
{
    let ghost old_bytes = rope_bytes(*rope);
    let old_len = rope_len(rope);
    rope_insert(rope, offset, text);
    let new_len = rope_len(rope);
    proof {
        let a = old_bytes.subrange(0, offset as int);
        let t = encode_utf8(text@);
        let b = old_bytes.subrange(offset as int, old_bytes.len() as int);
        let new_bytes = rope_bytes(*rope);
        assert(new_bytes == a + t + b);
        assert(new_len == old_len + t.len());
        let e = offset + t.len();
        if e < new_bytes.len() {
            assert(new_bytes[e] == old_bytes[offset as int]);
            is_char_boundary_iff_not_is_continuation_byte(old_bytes, offset as int);
            is_char_boundary_iff_not_is_continuation_byte(new_bytes, e);
        } else {
            is_char_boundary_start_end_of_seq(new_bytes);
        }
        let ca = decode_utf8(a);
        let cb = decode_utf8(b);
        valid_utf8_split(old_bytes, offset as int);
        decode_utf8_encode_utf8(a);
        decode_utf8_encode_utf8(b);
        lemma_encode_utf8_concat(ca, text@);
        lemma_encode_utf8_concat(ca + text@, cb);
        assert(encode_utf8(ca + text@ + cb) == new_bytes);
        encode_utf8_decode_utf8(ca + text@ + cb);
        encode_utf8_decode_utf8(rope_chars(*rope));
        assert(old_bytes.subrange(0, offset as int) == a);
    }
    offset + (new_len - old_len)
}

/// `str::trim`. Claimed: the result is `s` without leading and trailing
/// characters that have the Unicode `White_Space` property, as the std
/// documentation of `trim` says.
#[verifier::external_body]
pub(crate) fn str_trim<'a>(s: &'a str) -> (t: &'a str)
    ensures
        t@ == trim_chars(s@),
{
    s.trim()
}

/// The text between two byte offsets, as a `String`.
pub(crate) fn text_slice(rope: &Rope, start: usize, end: usize) -> (s: String)
    requires
        start <= end,
        is_offset(*rope, start as int),
        is_offset(*rope, end as int),
    ensures
        s@ == text_between(*rope, start as int, end as int),
{
    let s = rope_slice_to_string(rope, start, end);
    proof {
        encode_utf8_decode_utf8(s@);
    }
    s
}

/// The text between two byte offsets with leading and trailing white space
/// removed.
pub(crate) fn trimmed_text_slice(rope: &Rope, start: usize, end: usize) -> (s: String)
    requires
        start <= end,
        is_offset(*rope, start as int),
        is_offset(*rope, end as int),
    ensures
        s@ == trim_chars(text_between(*rope, start as int, end as int)),
{
    let full = text_slice(rope, start, end);
    let trimmed = str_trim(full.as_str());
    trimmed.to_owned()
}

/// Trimming the start drops exactly the leading white space: the result is
/// the suffix from the first character that is not white space.
pub proof fn lemma_trim_start_chars(s: Seq<char>) -> (i: int)
    ensures
        0 <= i <= s.len(),
        trim_start_chars(s) == s.subrange(i, s.len() as int),
        forall|k: int| 0 <= k < i ==> is_white_space(#[trigger] s[k]),
        i < s.len() ==> !is_white_space(s[i]),
    decreases s.len(),
{
    if s.len() > 0 && is_white_space(s[0]) {
        let i = lemma_trim_start_chars(s.drop_first());
        assert(s.drop_first().subrange(i, s.drop_first().len() as int) =~= s.subrange(
            i + 1,
            s.len() as int,
        ));
        assert forall|k: int| 0 <= k < i + 1 implies is_white_space(#[trigger] s[k]) by {
            if k > 0 {
                assert(s[k] == s.drop_first()[k - 1]);
            }
        }
        assert(i + 1 < s.len() ==> s[i + 1] == s.drop_first()[i]);
        i + 1
    } else {
        assert(s.subrange(0, s.len() as int) =~= s);
        0
    }
}

/// Trimming the end drops exactly the trailing white space: the result is
/// the prefix up to the last character that is not white space.
pub proof fn lemma_trim_end_chars(s: Seq<char>) -> (j: int)
    ensures
        0 <= j <= s.len(),
        trim_end_chars(s) == s.subrange(0, j),
        forall|k: int| j <= k < s.len() ==> is_white_space(#[trigger] s[k]),
        j > 0 ==> !is_white_space(s[j - 1]),
    decreases s.len(),
{
    if s.len() > 0 && is_white_space(s.last()) {
        let j = lemma_trim_end_chars(s.drop_last());
        assert(s.drop_last().subrange(0, j) =~= s.subrange(0, j));
        assert forall|k: int| j <= k < s.len() implies is_white_space(#[trigger] s[k]) by {
            if k < s.len() - 1 {
                assert(s[k] == s.drop_last()[k]);
            }
        }
        assert(j > 0 ==> s[j - 1] == s.drop_last()[j - 1]);
        j
    } else {
        assert(s.subrange(0, s.len() as int) =~= s);
        s.len() as int
    }
}

/// `trim_chars(s)` is `s` from its first to its last character that is not
/// white space: only white space is removed, and only at the two ends.
pub proof fn lemma_trim_chars(s: Seq<char>) -> (bounds: (int, int))
    ensures
        0 <= bounds.0 <= bounds.1 <= s.len(),
        trim_chars(s) == s.subrange(bounds.0, bounds.1),
        forall|k: int| 0 <= k < bounds.0 ==> is_white_space(#[trigger] s[k]),
        forall|k: int| bounds.1 <= k < s.len() ==> is_white_space(#[trigger] s[k]),
        bounds.0 < bounds.1 ==> !is_white_space(s[bounds.0]) && !is_white_space(
            s[bounds.1 - 1],
        ),
{
    let i = lemma_trim_start_chars(s);
    let rest = s.subrange(i, s.len() as int);
    let j = lemma_trim_end_chars(rest);
    assert(rest.subrange(0, j) =~= s.subrange(i, i + j));
    assert forall|k: int| i + j <= k < s.len() implies is_white_space(#[trigger] s[k]) by {
        assert(s[k] == rest[k - i]);
    }
    if j > 0 {
        assert(s[i] == rest[0]);
        assert(s[i + j - 1] == rest[j - 1]);
    }
    (i, i + j)
}

/// The text between an offset and itself is empty.
pub(crate) proof fn lemma_empty_slice(rope: Rope, offset: int)
    requires
        0 <= offset <= rope_bytes(rope).len(),
    ensures
        text_between(rope, offset, offset) == Seq::<char>::empty(),
        trim_chars(Seq::<char>::empty()) == Seq::<char>::empty(),
{
    assert(rope_bytes(rope).subrange(offset, offset) =~= Seq::<u8>::empty());
    assert(decode_utf8(Seq::<u8>::empty()) =~= Seq::<char>::empty());
}

} // verus!
