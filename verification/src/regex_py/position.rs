use vstd::prelude::*;
use vstd::string::StringSliceAdditionalSpecFns;
use vstd::utf8::{
    decode_utf8, decode_utf8_encode_utf8, decode_utf8_split, encode_utf8, encode_utf8_decode_utf8,
    encode_utf8_valid_utf8, is_char_boundary, is_char_boundary_iff_not_is_continuation_byte,
    is_char_boundary_start_end_of_seq, is_continuation_byte, length_of_first_scalar,
    pop_first_scalar, valid_utf8, valid_utf8_split, encode_utf8_first_scalar, encode_scalar,
};

verus! {

/// The number of bytes among the first `n` of `bytes` that start a character (that are not
/// UTF-8 continuation bytes).
pub open spec fn count_starts(bytes: Seq<u8>, n: int) -> int
    decreases n,
{
    if n <= 0 {
        0
    } else {
        count_starts(bytes, n - 1) + if is_continuation_byte(bytes[n - 1]) {
            0int
        } else {
            1int
        }
    }
}

/// The number of characters of `text` that lie before byte position `byte_pos`.
pub open spec fn chars_before(text: &str, byte_pos: int) -> int {
    decode_utf8(text.spec_bytes().subrange(0, byte_pos)).len() as int
}

/// The byte position that `to_byte_pos` gives for character position `char_pos` of `text`: the
/// byte offset of that character where it exists; past the last character, positions beyond
/// the byte length are kept and the others become `char_pos + chars - bytes`.
pub open spec fn spec_to_byte_pos(text: &str, char_pos: int) -> int {
    let bytes = text.spec_bytes().len() as int;
    let chars = text@.len() as int;
    if char_pos == 0 {
        0
    } else if char_pos > bytes {
        char_pos
    } else if char_pos < chars {
        encode_utf8(text@.subrange(0, char_pos)).len() as int
    } else {
        char_pos + chars - bytes
    }
}

/// `to_byte_pos` neither underflows nor overflows on `char_pos`.
pub open spec fn to_byte_pos_defined(text: &str, char_pos: int) -> bool {
    char_pos == 0 || char_pos > text.spec_bytes().len() || char_pos < text@.len() || (char_pos
        + text@.len() >= text.spec_bytes().len() && char_pos + text@.len() <= usize::MAX)
}

proof fn lemma_count_starts_prefix(a: Seq<u8>, b: Seq<u8>, n: int)
    requires
        0 <= n <= a.len(),
        a.len() <= b.len(),
        a =~= b.subrange(0, a.len() as int),
    ensures
        count_starts(a, n) == count_starts(b, n),
    decreases n,
{
    if n > 0 {
        lemma_count_starts_prefix(a, b, n - 1);
    }
}

proof fn lemma_count_starts_shift(bytes: Seq<u8>, k: int, n: int)
    requires
        0 <= k,
        0 <= n,
        k + n <= bytes.len(),
    ensures
        count_starts(bytes, k + n) == count_starts(bytes, k) + count_starts(
            bytes.subrange(k, bytes.len() as int),
            n,
        ),
    decreases n,
{
    if n > 0 {
        lemma_count_starts_shift(bytes, k, n - 1);
    }
}

proof fn lemma_count_starts_bounds(bytes: Seq<u8>, n: int)
    requires
        0 <= n,
    ensures
        0 <= count_starts(bytes, n) <= n,
    decreases n,
{
    if n > 0 {
        lemma_count_starts_bounds(bytes, n - 1);
    }
}

/// A valid UTF-8 byte string decodes to as many characters as it has bytes that are not
/// continuation bytes.
pub proof fn lemma_decode_len(bytes: Seq<u8>)
    requires
        valid_utf8(bytes),
    ensures
        decode_utf8(bytes).len() == count_starts(bytes, bytes.len() as int),
    decreases bytes.len(),
{
    if bytes.len() > 0 {
        let l = length_of_first_scalar(bytes);
        let tail = pop_first_scalar(bytes);
        assert(1 <= l <= 4);
        lemma_decode_len(tail);
        lemma_count_starts_shift(bytes, l, bytes.len() - l);
        assert(count_starts(bytes, l) == 1) by {
            reveal_with_fuel(count_starts, 5);
        }
        assert(decode_utf8(bytes).len() == 1 + decode_utf8(tail).len());
    }
}

/// The characters before a character boundary are the bytes before it that start a character.
pub proof fn lemma_chars_before(text: &str, b: int)
    requires
        is_char_boundary(text.spec_bytes(), b),
    ensures
        0 <= b <= text.spec_bytes().len(),
        chars_before(text, b) == count_starts(text.spec_bytes(), b),
        valid_utf8(text.spec_bytes().subrange(0, b)),
        text@ =~= decode_utf8(text.spec_bytes().subrange(0, b)) + decode_utf8(
            text.spec_bytes().subrange(b, text.spec_bytes().len() as int),
        ),
{
    let bytes = text.spec_bytes();
    encode_utf8_valid_utf8(text@);
    encode_utf8_decode_utf8(text@);
    lemma_boundary_in_range(bytes, b);
    valid_utf8_split(bytes, b);
    decode_utf8_split(bytes, b);
    let pre = bytes.subrange(0, b);
    lemma_decode_len(pre);
    lemma_count_starts_prefix(pre, bytes, b);
}

/// A character boundary of a valid UTF-8 byte string lies within it.
pub proof fn lemma_boundary_in_range(bytes: Seq<u8>, b: int)
    requires
        valid_utf8(bytes),
        is_char_boundary(bytes, b),
    ensures
        0 <= b <= bytes.len(),
    decreases bytes.len(),
{
    if b != 0 {
        if bytes.len() > 0 {
            lemma_boundary_in_range(pop_first_scalar(bytes), b - length_of_first_scalar(bytes));
        }
    }
}

/// At a character boundary `b` with `n` characters before it, the first `n` characters of the
/// text take up exactly `b` bytes.
proof fn lemma_boundary_is_encoded_prefix(text: &str, b: int, n: int)
    requires
        is_char_boundary(text.spec_bytes(), b),
        count_starts(text.spec_bytes(), b) == n,
    ensures
        0 <= n <= text@.len(),
        encode_utf8(text@.subrange(0, n)).len() == b,
{
    let bytes = text.spec_bytes();
    lemma_chars_before(text, b);
    let pre = bytes.subrange(0, b);
    assert(decode_utf8(pre) =~= text@.subrange(0, n));
    decode_utf8_encode_utf8(pre);
}

/// The byte position of character position `char_pos` of `text`.
///
/// Past the last character, a position beyond the byte length is returned unchanged and any
/// other position becomes `char_pos + chars - bytes`.
pub fn to_byte_pos(text: &str, char_pos: usize) -> (r: usize)
    requires
        to_byte_pos_defined(text, char_pos as int),
    ensures
        r == spec_to_byte_pos(text, char_pos as int),
{
    if char_pos == 0 {
        return 0;
    }
    let bytes = text.as_bytes();
    let n = bytes.len();
    if char_pos > n {
        // the position is out of bounds anyway
        return char_pos;
    }
    proof {
        encode_utf8_valid_utf8(text@);
    }
    let mut i: usize = 0;
    let mut seen: usize = 0;
    while i < n
        invariant
            bytes@ == text.spec_bytes(),
            valid_utf8(bytes@),
            n == bytes@.len(),
            0 < char_pos <= n,
            i <= n,
            seen == count_starts(bytes@, i as int),
            seen <= char_pos,
            seen <= i,
        decreases n - i,
    {
        let b = bytes[i];
        if !(0x80u8 <= b && b <= 0xbfu8) {
            if seen == char_pos {
                proof {
                    is_char_boundary_iff_not_is_continuation_byte(bytes@, i as int);
                    lemma_boundary_is_encoded_prefix(text, i as int, char_pos as int);
                    lemma_chars_before(text, i as int);
                    lemma_count_starts_bounds(bytes@.subrange(i as int, n as int), n - i);
                    lemma_count_starts_shift(bytes@, i as int, n - i);
                    lemma_decode_len(bytes@);
                    encode_utf8_decode_utf8(text@);
                    assert(bytes@.subrange(i as int, n as int)[0] == b);
                    assert(count_starts(bytes@.subrange(i as int, n as int), n - i) >= 1) by {
                        lemma_count_starts_first(bytes@.subrange(i as int, n as int), n - i);
                    }
                }
                return i;
            }
            seen = seen + 1;
        }
        i = i + 1;
    }
    proof {
        lemma_decode_len(bytes@);
        encode_utf8_decode_utf8(text@);
    }
    // the position is out of bounds
    char_pos + seen - n
}

proof fn lemma_count_starts_first(bytes: Seq<u8>, n: int)
    requires
        1 <= n <= bytes.len(),
        !is_continuation_byte(bytes[0]),
    ensures
        count_starts(bytes, n) >= 1,
    decreases n,
{
    reveal_with_fuel(count_starts, 2);
    if n > 1 {
        lemma_count_starts_first(bytes, n - 1);
    }
}

/// A helper for translating byte positions to Unicode character positions. It remembers the
/// positions it has translated, so that increasing positions are translated in linear time
/// overall.
pub struct PosTranslator<'a> {
    text: &'a str,
    known: Vec<(usize, usize)>,
}

impl<'a> PosTranslator<'a> {
    /// The text the positions refer to.
    pub closed spec fn text_view(&self) -> Seq<char> {
        self.text@
    }

    /// The remembered translations are correct and sorted by byte position.
    pub closed spec fn wf(&self) -> bool {
        &&& self.text.spec_bytes() == encode_utf8(self.text@)
        &&& forall|k: int|
            0 <= k < self.known@.len() ==> {
                &&& is_char_boundary(self.text.spec_bytes(), #[trigger] self.known@[k].0 as int)
                &&& self.known@[k].1 == count_starts(self.text.spec_bytes(), self.known@[k].0 as int)
            }
        &&& forall|j: int, k: int|
            0 <= j < k < self.known@.len() ==> #[trigger] self.known@[j].0 < #[trigger] self.known@[k].0
    }

    pub fn new(text: &'a str) -> (r: Self)
        ensures
            r.wf(),
            r.text_view() == text@,
    {
        Self { text, known: Vec::new() }
    }

    /// The number of characters before byte position `byte_pos`, a character boundary.
    pub fn get_char_pos(&mut self, byte_pos: usize) -> (r: usize)
        requires
            old(self).wf(),
            is_char_boundary(encode_utf8(old(self).text_view()), byte_pos as int),
        ensures
            final(self).wf(),
            final(self).text_view() == old(self).text_view(),
            r == decode_utf8(encode_utf8(old(self).text_view()).subrange(0, byte_pos as int)).len(),
    {
        let ghost bytes_spec = self.text.spec_bytes();
        proof {
            lemma_chars_before(self.text, byte_pos as int);
        }
        let mut start_b: usize = 0;
        let mut start_c: usize = 0;
        proof {
            encode_utf8_valid_utf8(self.text@);
            is_char_boundary_start_end_of_seq(bytes_spec);
        }
        let mut k = self.known.len();
        let mut found = false;
        while k > 0 && !found
            invariant
                self.wf(),
                k <= self.known@.len(),
                is_char_boundary(bytes_spec, start_b as int),
                start_c == count_starts(bytes_spec, start_b as int),
                start_b <= byte_pos,
                bytes_spec == self.text.spec_bytes(),
            decreases k,
        {
            k = k - 1;
            let e = self.known[k];
            if e.0 <= byte_pos {
                start_b = e.0;
                start_c = e.1;
                found = true;
            }
        }

        if start_b == byte_pos {
            return start_c;
        }
        let bytes = self.text.as_bytes();
        let mut i = start_b;
        let mut char_pos = start_c;
        proof {
            lemma_boundary_in_range(bytes_spec, byte_pos as int);
            lemma_count_starts_bounds(bytes_spec, start_b as int);
        }
        while i < byte_pos
            invariant
                bytes@ == bytes_spec,
                byte_pos <= bytes@.len(),
                start_b <= i <= byte_pos,
                char_pos == count_starts(bytes_spec, i as int),
                char_pos <= i,
            decreases byte_pos - i,
        {
            let b = bytes[i];
            if !(0x80u8 <= b && b <= 0xbfu8) {
                char_pos = char_pos + 1;
            }
            i = i + 1;
        }

        let len = self.known.len();
        let keep = if len == 0 {
            true
        } else {
            self.known[len - 1].0 < byte_pos
        };
        if keep {
            // keep the array sorted
            self.known.push((byte_pos, char_pos));
        }
        char_pos
    }
}

/// Encoding a concatenation encodes each part in turn.
proof fn lemma_encode_concat(a: Seq<char>, b: Seq<char>)
    ensures
        encode_utf8(a + b) == encode_utf8(a) + encode_utf8(b),
    decreases a.len(),
{
    if a.len() > 0 {
        assert((a + b)[0] == a[0]);
        assert((a + b).drop_first() =~= a.drop_first() + b);
        lemma_encode_concat(a.drop_first(), b);
        assert(encode_utf8(a + b) =~= encode_utf8(a) + encode_utf8(b));
    } else {
        assert(a + b =~= b);
        assert(encode_utf8(a) =~= Seq::<u8>::empty());
        assert(encode_utf8(a) + encode_utf8(b) =~= encode_utf8(b));
    }
}

/// The end of the encoding of a prefix is a character boundary of the encoding of the whole.
proof fn lemma_prefix_boundary(a: Seq<char>, b: Seq<char>)
    ensures
        is_char_boundary(encode_utf8(a + b), encode_utf8(a).len() as int),
    decreases a.len(),
{
    let bytes = encode_utf8(a + b);
    encode_utf8_valid_utf8(a + b);
    if a.len() > 0 {
        let ab = a + b;
        encode_utf8_first_scalar(ab);
        assert(ab[0] == a[0]);
        assert(ab.drop_first() =~= a.drop_first() + b);
        assert(pop_first_scalar(bytes) =~= encode_utf8(ab.drop_first()));
        lemma_prefix_boundary(a.drop_first(), b);
        assert(encode_utf8(a).len() == encode_scalar(a[0] as u32).len() + encode_utf8(
            a.drop_first(),
        ).len());
        assert(encode_scalar(a[0] as u32).len() >= 1) by {
            encode_utf8_first_scalar(a);
        }
    }
}

/// Inside the text, `to_byte_pos` and `PosTranslator::get_char_pos` undo each other: the byte
/// position of a character position is a character boundary with exactly that many
/// characters before it.
pub proof fn lemma_byte_pos_round_trip(text: &str, c: int)
    requires
        0 <= c < text@.len(),
    ensures
        is_char_boundary(encode_utf8(text@), spec_to_byte_pos(text, c)),
        decode_utf8(encode_utf8(text@).subrange(0, spec_to_byte_pos(text, c))).len() == c,
{
    let pre = text@.subrange(0, c);
    let post = text@.subrange(c, text@.len() as int);
    assert(text@ =~= pre + post);
    lemma_encode_concat(pre, post);
    lemma_prefix_boundary(pre, post);
    encode_utf8_valid_utf8(text@);
    lemma_decode_len(encode_utf8(text@));
    encode_utf8_decode_utf8(text@);
    lemma_count_starts_bounds(encode_utf8(text@), encode_utf8(text@).len() as int);
    let b = encode_utf8(pre).len() as int;
    assert(encode_utf8(text@).subrange(0, b) =~= encode_utf8(pre));
    encode_utf8_decode_utf8(pre);
    if c == 0 {
        is_char_boundary_start_end_of_seq(encode_utf8(text@));
        assert(encode_utf8(text@).subrange(0, 0) =~= Seq::<u8>::empty());
        assert(decode_utf8(Seq::<u8>::empty()) =~= Seq::<char>::empty());
    }
}

/// Counting character starts over a longer prefix never counts fewer.
proof fn lemma_count_starts_monotone(bytes: Seq<u8>, a: int, b: int)
    requires
        0 <= a <= b,
    ensures
        count_starts(bytes, a) <= count_starts(bytes, b),
    decreases b - a,
{
    if a < b {
        lemma_count_starts_monotone(bytes, a, b - 1);
    }
}

/// At character boundaries `a <= b` of `text`, there are no more characters before `a` than
/// before `b`, and no more before `b` than `text` has.
pub proof fn lemma_chars_before_ordered(text: &str, a: int, b: int)
    requires
        is_char_boundary(text.spec_bytes(), a),
        is_char_boundary(text.spec_bytes(), b),
        a <= b,
    ensures
        0 <= chars_before(text, a) <= chars_before(text, b) <= text@.len(),
{
    lemma_chars_before(text, a);
    lemma_chars_before(text, b);
    lemma_count_starts_monotone(text.spec_bytes(), a, b);
    lemma_count_starts_bounds(text.spec_bytes(), a);
    encode_utf8_valid_utf8(text@);
    lemma_boundary_in_range(text.spec_bytes(), b);
    lemma_count_starts_monotone(text.spec_bytes(), b, text.spec_bytes().len() as int);
    lemma_decode_len(text.spec_bytes());
    encode_utf8_decode_utf8(text@);
}

} // verus!
