//! Finding the first word of a string: the characters before the first
//! space, or the whole string when it has none. The slice functions return
//! the word itself; the index function reports where the word ends as a
//! byte position in the string's UTF-8 encoding.

use vstd::prelude::*;
use vstd::string::StrSliceExecFns;
use vstd::utf8::char_u32_cast;
use vstd::utf8::encode_scalar;
use vstd::utf8::encode_utf8;
use vstd::utf8::has_width_1_encoding;

verus! {

/// The UTF-8 code unit of a space, the single byte that encodes it.
pub const SPACE_BYTE: u8 = 32;

/// The length of the first word of `s`: the number of characters before the
/// first space, or the length of `s` when it contains no space.
pub open spec fn word_end(s: Seq<char>) -> nat
    decreases s.len(),
{
    if s.len() == 0 {
        0
    } else if s[0] == ' ' {
        0
    } else {
        1 + word_end(s.subrange(1, s.len() as int))
    }
}

/// `word_end(s)` never passes the end of `s`, no character before it is a
/// space, and the character at it, when there is one, is a space.
pub proof fn lemma_word_end(s: Seq<char>)
    ensures
        word_end(s) <= s.len(),
        forall|j: int| 0 <= j < word_end(s) ==> s[j] != ' ',
        word_end(s) < s.len() ==> s[word_end(s) as int] == ' ',
    decreases s.len(),
{
    if s.len() == 0 || s[0] == ' ' {
    } else {
        let t = s.subrange(1, s.len() as int);
        lemma_word_end(t);
        assert forall|j: int| 0 <= j < word_end(s) implies s[j] != ' ' by {
            if j >= 1 {
                assert(s[j] == t[j - 1]);
            }
        }
        if word_end(s) < s.len() {
            assert(s[word_end(s) as int] == t[word_end(t) as int]);
        }
    }
}

/// Any position with no space before it that sits on a space, or at the end
/// of a string with no space, is `word_end(s)`.
pub proof fn lemma_word_end_agrees(s: Seq<char>, r: int)
    requires
        0 <= r <= s.len(),
        forall|j: int| 0 <= j < r ==> s[j] != ' ',
        r < s.len() ==> s[r] == ' ',
    ensures
        r == word_end(s),
    decreases s.len(),
{
    if s.len() == 0 {
    } else if s[0] == ' ' {
        assert(r == 0);
    } else {
        assert(r >= 1);
        let t = s.subrange(1, s.len() as int);
        assert forall|j: int| 0 <= j < r - 1 implies t[j] != ' ' by {
            assert(t[j] == s[j + 1]);
        }
        assert(r - 1 < t.len() ==> t[r - 1] == s[r]);
        lemma_word_end_agrees(t, r - 1);
    }
}

/// Scans the characters of `s` and returns the index just past its first
/// word.
fn word_end_exec(s: &str) -> (r: usize)
    ensures
        r == word_end(s@),
        r <= s@.len(),
{
    let n: usize = s.unicode_len();
    let mut i: usize = 0;
    while i < n
        invariant
            0 <= i <= n,
            n == s@.len(),
            forall|j: int| 0 <= j < i ==> s@[j] != ' ',
        decreases n - i,
    {
        let c: char = s.get_char(i);
        if c == ' ' {
            proof {
                lemma_word_end_agrees(s@, i as int);
            }
            return i;
        }
        i = i + 1;
    }
    proof {
        lemma_word_end_agrees(s@, n as int);
    }
    n
}

/// The length in bytes of the UTF-8 encoding of the first word of `s`.
pub open spec fn first_word_byte_len(s: Seq<char>) -> nat {
    encode_utf8(s.subrange(0, word_end(s) as int)).len()
}

/// A space encodes as the single space byte.
proof fn lemma_space_scalar()
    ensures
        encode_scalar(' ' as u32) =~= seq![SPACE_BYTE],
{
    assert(' ' as u32 == 32);
    assert(32u32 & 0x7F == 32) by (bit_vector);
}

/// No byte of the encoding of a character other than a space is the space
/// byte: a one-byte encoding is the character's own code, and every byte of
/// a longer encoding has its high bit set.
proof fn lemma_nonspace_scalar(c: char)
    requires
        c != ' ',
    ensures
        forall|k: int|
            0 <= k < encode_scalar(c as u32).len() ==> #[trigger] encode_scalar(c as u32)[k]
                != SPACE_BYTE,
{
    let v = c as u32;
    char_u32_cast(c, v);
    char_u32_cast(' ', ' ' as u32);
    assert(' ' as u32 == 32);
    assert(v != 32);
    if has_width_1_encoding(v) {
        assert((v & 0x7F) as u8 != 32) by (bit_vector)
            requires
                v <= 0x7F && v != 32,
        ;
    } else {
        assert(0xC0u8 | (((v >> 6) & 0x1F) as u8) != 32) by (bit_vector);
        assert(0xE0u8 | (((v >> 12) & 0x0F) as u8) != 32) by (bit_vector);
        assert(0xF0u8 | (((v >> 18) & 0x7) as u8) != 32) by (bit_vector);
        assert(0x80u8 | ((v & 0x3F) as u8) != 32) by (bit_vector);
        assert(0x80u8 | (((v >> 6) & 0x3F) as u8) != 32) by (bit_vector);
        assert(0x80u8 | (((v >> 12) & 0x3F) as u8) != 32) by (bit_vector);
    }
}

/// The encoding of the first word of `s` sits at the front of the encoding
/// of `s`: its length never passes the end, no byte before that length is
/// the space byte, and the byte at it, when there is one, is the space byte.
pub proof fn lemma_first_word_byte_len(s: Seq<char>)
    ensures
        first_word_byte_len(s) <= encode_utf8(s).len(),
        forall|j: int| 0 <= j < first_word_byte_len(s) ==> encode_utf8(s)[j] != SPACE_BYTE,
        first_word_byte_len(s) < encode_utf8(s).len() ==> encode_utf8(s)[first_word_byte_len(
            s,
        ) as int] == SPACE_BYTE,
    decreases s.len(),
{
    lemma_word_end(s);
    let p = s.subrange(0, word_end(s) as int);
    if s.len() == 0 {
        assert(p =~= Seq::<char>::empty());
    } else if s[0] == ' ' {
        assert(p =~= Seq::<char>::empty());
        lemma_space_scalar();
        assert(encode_utf8(s) == encode_scalar(s[0] as u32) + encode_utf8(s.drop_first()));
        assert(encode_utf8(s)[0] == SPACE_BYTE);
    } else {
        let t = s.drop_first();
        assert(t =~= s.subrange(1, s.len() as int));
        lemma_first_word_byte_len(t);
        lemma_word_end(t);
        lemma_nonspace_scalar(s[0]);
        let e0 = encode_scalar(s[0] as u32);
        let pt = t.subrange(0, word_end(t) as int);
        assert(word_end(s) == 1 + word_end(t));
        assert(p.len() > 0);
        assert(p[0] == s[0]);
        assert(p.drop_first() =~= pt);
        assert(encode_utf8(p) == e0 + encode_utf8(pt));
        assert(encode_utf8(s) == e0 + encode_utf8(t));
        assert(first_word_byte_len(s) == e0.len() + first_word_byte_len(t));
        assert forall|j: int| 0 <= j < first_word_byte_len(s) implies encode_utf8(s)[j]
            != SPACE_BYTE by {
            if j < e0.len() {
                assert(encode_utf8(s)[j] == e0[j]);
            } else {
                assert(encode_utf8(s)[j] == encode_utf8(t)[j - e0.len()]);
            }
        }
        if first_word_byte_len(s) < encode_utf8(s).len() {
            assert(encode_utf8(s)[first_word_byte_len(s) as int] == encode_utf8(
                t,
            )[first_word_byte_len(t) as int]);
        }
    }
}

/// Returns the index of the first space byte in the UTF-8 encoding of `s`,
/// or the length in bytes of `s` when it contains no space.
pub fn find_first_word(s: &String) -> (r: usize)
    ensures
        r == first_word_byte_len(s@),
        r <= encode_utf8(s@).len(),
        forall|j: int| 0 <= j < r ==> encode_utf8(s@)[j] != SPACE_BYTE,
        r < encode_utf8(s@).len() ==> encode_utf8(s@)[r as int] == SPACE_BYTE,
{
    proof {
        lemma_first_word_byte_len(s@);
    }
    let bytes: &[u8] = s.as_str().as_bytes();
    let n: usize = bytes.len();
    let mut i: usize = 0;
    while i < n
        invariant
            0 <= i <= n,
            n == bytes@.len(),
            bytes@ == encode_utf8(s@),
            forall|j: int| 0 <= j < i ==> bytes@[j] != SPACE_BYTE,
        decreases n - i,
    {
        if bytes[i] == SPACE_BYTE {
            proof {
                lemma_first_word_byte_len(s@);
            }
            return i;
        }
        i = i + 1;
    }
    n
}

/// Returns the first word of the borrowed string as a slice: its characters
/// up to, and not including, its first space.
pub fn first_word_with_slice(s: &String) -> (r: &str)
    ensures
        r@ == s@.subrange(0, word_end(s@) as int),
        encode_utf8(r@).len() == first_word_byte_len(s@),
{
    let st: &str = s.as_str();
    let end: usize = word_end_exec(st);
    st.substring_char(0, end)
}

/// Returns the first word of the string slice: its characters up to, and not
/// including, its first space.
pub fn best_first_word(s: &str) -> (r: &str)
    ensures
        r@ == s@.subrange(0, word_end(s@) as int),
        encode_utf8(r@).len() == first_word_byte_len(s@),
{
    let end: usize = word_end_exec(s);
    s.substring_char(0, end)
}

} // verus!
