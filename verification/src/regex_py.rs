use std::collections::HashMap;
use std::ops::Range;
use std::sync::Arc;
use vstd::prelude::*;
use vstd::std_specs::hash::obeys_key_model;
use vstd::string::{StringExecFns, StringSliceAdditionalSpecFns};
use vstd::utf8::{
    decode_utf8, encode_utf8, encode_utf8_decode_utf8, encode_utf8_valid_utf8, is_char_boundary,
    is_char_boundary_iff_not_is_continuation_byte, is_char_boundary_start_end_of_seq, valid_utf8,
    valid_utf8_split,
};

pub mod engine;
pub mod position;

use self::engine::{
    byte_slice, capture_names, captures_all, captures_at, compile, distinct_names, error_text,
    gap_spans, gap_text, names_view, regex_capture_names, regex_captures_all, regex_captures_at,
    regex_compiles, source, split_pieces, valid_spans, whole_match, Compiled,
};
use self::position::{spec_to_byte_pos, to_byte_pos, to_byte_pos_defined, PosTranslator};

verus! {

/// The number of characters of `text` before byte offset `byte`.
pub open spec fn char_index(text: Seq<char>, byte: int) -> int {
    decode_utf8(encode_utf8(text).subrange(0, byte)).len() as int
}

/// Group byte spans translated to character spans of `text`.
pub open spec fn char_spans(text: Seq<char>, groups: Seq<Option<(usize, usize)>>) -> Seq<
    Option<(int, int)>,
> {
    groups.map_values(
        |g: Option<(usize, usize)>|
            match g {
                Some((s, e)) => Some((char_index(text, s as int), char_index(text, e as int))),
                None => None,
            },
    )
}

/// Every group of a match, translated to characters, is an ordered span within the text.
pub proof fn lemma_char_spans_in_text(text: &str, groups: Seq<Option<(usize, usize)>>)
    requires
        valid_spans(text@, groups),
    ensures
        forall|i: int|
            0 <= i < groups.len() ==> match #[trigger] char_spans(text@, groups)[i] {
                Some((s, e)) => 0 <= s <= e <= text@.len(),
                None => true,
            },
{
    assert forall|i: int| 0 <= i < groups.len() implies match #[trigger] char_spans(
        text@,
        groups,
    )[i] {
        Some((s, e)) => 0 <= s <= e <= text@.len(),
        None => true,
    } by {
        match groups[i] {
            Some((s, e)) => {
                position::lemma_chars_before_ordered(text, s as int, e as int);
            },
            None => {},
        }
    }
}

/// `Arc::clone`: another handle to the same value.
#[verifier::external_body]
fn share<T>(a: &Arc<T>) -> (r: Arc<T>)
    ensures
        r == *a,
{
    Arc::clone(a)
}

/// In a valid UTF-8 byte string, a character boundary `b` at or after the boundary `a` is a
/// character boundary of the bytes from `a` on.
proof fn lemma_boundary_in_suffix(bytes: Seq<u8>, a: int, b: int)
    requires
        valid_utf8(bytes),
        is_char_boundary(bytes, a),
        is_char_boundary(bytes, b),
        a <= b,
    ensures
        valid_utf8(bytes.subrange(a, bytes.len() as int)),
        is_char_boundary(bytes.subrange(a, bytes.len() as int), b - a),
{
    let n = bytes.len() as int;
    valid_utf8_split(bytes, a);
    position::lemma_boundary_in_range(bytes, a);
    position::lemma_boundary_in_range(bytes, b);
    let rest = bytes.subrange(a, n);
    if b == n {
        is_char_boundary_start_end_of_seq(rest);
        assert(rest.len() == b - a);
    } else {
        is_char_boundary_iff_not_is_continuation_byte(bytes, b);
        is_char_boundary_iff_not_is_continuation_byte(rest, b - a);
        assert(rest[b - a] == bytes[b]);
    }
}

/// The text of `text` between the character boundaries `a` and `b`.
fn substring(text: &str, a: usize, b: usize) -> (r: String)
    requires
        a <= b,
        is_char_boundary(text.spec_bytes(), a as int),
        is_char_boundary(text.spec_bytes(), b as int),
    ensures
        r@ == byte_slice(text@, a as int, b as int),
{
    proof {
        encode_utf8_valid_utf8(text@);
        lemma_boundary_in_suffix(text.spec_bytes(), a as int, b as int);
        position::lemma_boundary_in_range(text.spec_bytes(), b as int);
    }
    let (_, rest) = text.split_at(a);
    let (mid, _) = rest.split_at(b - a);
    proof {
        assert(mid.spec_bytes() =~= text.spec_bytes().subrange(a as int, b as int));
        encode_utf8_decode_utf8(mid@);
    }
    mid.to_owned()
}

/// Whether `a` and `b` hold the same text.
fn same_text(a: &str, b: &str) -> (r: bool)
    ensures
        r == (a@ == b@),
{
    let x = a.as_bytes();
    let y = b.as_bytes();
    proof {
        encode_utf8_decode_utf8(a@);
        encode_utf8_decode_utf8(b@);
    }
    if x.len() != y.len() {
        return false;
    }
    let mut i: usize = 0;
    while i < x.len()
        invariant
            x@ == a.spec_bytes(),
            y@ == b.spec_bytes(),
            x@.len() == y@.len(),
            i <= x@.len(),
            forall|j: int| 0 <= j < i ==> x@[j] == y@[j],
        decreases x@.len() - i,
    {
        if x[i] != y[i] {
            return false;
        }
        i = i + 1;
    }
    assert(x@ =~= y@);
    true
}

/// The byte spans of the groups after the whole match, from group `k` on, that took part in a
/// match with group spans `g`.
pub open spec fn inner_group_spans(g: Seq<Option<(usize, usize)>>, k: int) -> Seq<(int, int)>
    decreases g.len() - k,
{
    if k < 0 || k >= g.len() {
        seq![]
    } else {
        (match g[k] {
            Some((s, e)) => seq![(s as int, e as int)],
            None => seq![],
        }) + inner_group_spans(g, k + 1)
    }
}

/// The byte spans of the pieces that splitting at the matches `caps[i..]` gives, the previous
/// match having ended at byte `last` of a text of `len` bytes: the text before each match
/// where there is any, then the groups of the match that took part, and at the end the rest
/// of the text where there is any.
pub open spec fn split_spans(caps: Seq<Seq<Option<(usize, usize)>>>, i: int, last: int, len: int) -> Seq<
    (int, int),
>
    decreases caps.len() - i,
{
    if i < 0 || i >= caps.len() {
        if last < len {
            seq![(last, len)]
        } else {
            seq![]
        }
    } else {
        let (s, e) = whole_match(caps[i]);
        (if s > last {
            seq![(last, s)]
        } else {
            seq![]
        }) + inner_group_spans(caps[i], 1) + split_spans(caps, i + 1, e, len)
    }
}

/// The group spans of a list of matches as sequences.
pub open spec fn caps_view(caps: Seq<Vec<Option<(usize, usize)>>>) -> Seq<Seq<Option<(usize, usize)>>> {
    caps.map_values(|v: Vec<Option<(usize, usize)>>| v@)
}

/// The pieces of `text` that splitting at the matches `caps` gives, keeping the text of the
/// capture groups.
pub open spec fn split_text(text: Seq<char>, caps: Seq<Seq<Option<(usize, usize)>>>) -> Seq<Seq<char>> {
    split_spans(caps, 0, 0, encode_utf8(text).len() as int).map_values(
        |p: (int, int)| byte_slice(text, p.0, p.1),
    )
}

/// A span that holds at least one byte.
pub open spec fn nonempty_span(p: (int, int)) -> bool {
    p.0 < p.1
}

proof fn lemma_filter_single(p: (int, int))
    ensures
        seq![p].filter(|q: (int, int)| nonempty_span(q)) == if nonempty_span(p) {
            seq![p]
        } else {
            seq![]
        },
{
    reveal_with_fuel(Seq::filter, 2);
    assert(seq![p].drop_last() =~= Seq::<(int, int)>::empty());
}

proof fn lemma_split_spans_nonempty_gaps(
    caps: Seq<Seq<Option<(usize, usize)>>>,
    i: int,
    last: int,
    len: int,
)
    requires
        0 <= i <= caps.len(),
        forall|j: int| 0 <= j < caps.len() ==> #[trigger] caps[j].len() == 1,
    ensures
        split_spans(caps, i, last, len) == gap_spans(caps, i, last, len).filter(
            |q: (int, int)| nonempty_span(q),
        ),
    decreases caps.len() - i,
{
    let f = |q: (int, int)| nonempty_span(q);
    if i == caps.len() {
        lemma_filter_single((last, len));
    } else {
        let (s, e) = whole_match(caps[i]);
        lemma_split_spans_nonempty_gaps(caps, i + 1, e, len);
        lemma_filter_single((last, s));
        Seq::filter_distributes_over_add(seq![(last, s)], gap_spans(caps, i + 1, e, len), f);
        assert(inner_group_spans(caps[i], 1) =~= seq![]);
        assert(gap_spans(caps, i, last, len) == seq![(last, s)] + gap_spans(caps, i + 1, e, len));
        assert(split_spans(caps, i, last, len) =~= (if s > last {
            seq![(last, s)]
        } else {
            seq![]
        }) + split_spans(caps, i + 1, e, len));
    }
}

/// Where no match has a capture group besides the whole match, splitting with the groups kept
/// gives exactly the gaps between the matches that are not empty, in order: the plain split
/// without its empty pieces.
pub proof fn lemma_split_is_nonempty_gaps(text: Seq<char>, caps: Seq<Seq<Option<(usize, usize)>>>)
    requires
        forall|i: int| 0 <= i < caps.len() ==> #[trigger] caps[i].len() == 1,
    ensures
        split_spans(caps, 0, 0, encode_utf8(text).len() as int) == gap_spans(
            caps,
            0,
            0,
            encode_utf8(text).len() as int,
        ).filter(|q: (int, int)| nonempty_span(q)),
        split_text(text, caps) == gap_spans(caps, 0, 0, encode_utf8(text).len() as int).filter(
            |q: (int, int)| nonempty_span(q),
        ).map_values(|p: (int, int)| byte_slice(text, p.0, p.1)),
{
    lemma_split_spans_nonempty_gaps(caps, 0, 0, encode_utf8(text).len() as int);
}

/// A group span that took part in the match, as a pair of byte offsets.
pub open spec fn took_part(o: Option<(usize, usize)>) -> bool {
    o is Some
}

/// The byte offsets of a group span that took part (`(0, 0)` for one that did not).
pub open spec fn span_of(o: Option<(usize, usize)>) -> (int, int) {
    match o {
        Some((s, e)) => (s as int, e as int),
        None => (0, 0),
    }
}

/// The spans of the capture groups of a match with group spans `g` that took part, every one
/// of them, in the order of the groups (group 0, the whole match, left out).
pub open spec fn participating_spans(g: Seq<Option<(usize, usize)>>) -> Seq<(int, int)> {
    g.skip(1).filter(|o: Option<(usize, usize)>| took_part(o)).map_values(
        |o: Option<(usize, usize)>| span_of(o),
    )
}

proof fn lemma_inner_group_spans_from(g: Seq<Option<(usize, usize)>>, k: int)
    requires
        1 <= k <= g.len(),
    ensures
        inner_group_spans(g, k) == g.skip(k).filter(|o: Option<(usize, usize)>| took_part(o)).map_values(
            |o: Option<(usize, usize)>| span_of(o),
        ),
    decreases g.len() - k,
{
    let p = |o: Option<(usize, usize)>| took_part(o);
    let f = |o: Option<(usize, usize)>| span_of(o);
    if k == g.len() {
        assert(g.skip(k) =~= seq![]);
        assert(g.skip(k).filter(p) =~= seq![]);
    } else {
        lemma_inner_group_spans_from(g, k + 1);
        assert(g.skip(k) =~= seq![g[k]] + g.skip(k + 1));
        Seq::filter_distributes_over_add(seq![g[k]], g.skip(k + 1), p);
        reveal_with_fuel(Seq::filter, 2);
        assert(seq![g[k]].drop_last() =~= Seq::<Option<(usize, usize)>>::empty());
        let head = seq![g[k]].filter(p);
        let tail = g.skip(k + 1).filter(p);
        assert((head + tail).map_values(f) =~= head.map_values(f) + tail.map_values(f));
        if g[k] is Some {
            assert(head =~= seq![g[k]]);
            assert(head.map_values(f) =~= seq![span_of(g[k])]);
        } else {
            assert(head =~= seq![]);
            assert(head.map_values(f) =~= seq![]);
        }
    }
}

/// Each match contributes to a split, after the text before it where there is any, the spans
/// of all of its capture groups that took part, in group order, and nothing else; then the
/// split goes on after the match.
pub proof fn lemma_split_keeps_every_participating_group(
    caps: Seq<Seq<Option<(usize, usize)>>>,
    i: int,
    last: int,
    len: int,
)
    requires
        0 <= i < caps.len(),
        caps[i].len() >= 1,
    ensures
        inner_group_spans(caps[i], 1) == participating_spans(caps[i]),
        split_spans(caps, i, last, len) == (if whole_match(caps[i]).0 > last {
            seq![(last, whole_match(caps[i]).0)]
        } else {
            seq![]
        }) + participating_spans(caps[i]) + split_spans(caps, i + 1, whole_match(caps[i]).1, len),
{
    lemma_inner_group_spans_from(caps[i], 1);
}

/// `p` is an ordered pair of character boundaries of `text`.
pub open spec fn boundary_span(text: Seq<char>, p: (int, int)) -> bool {
    &&& p.0 <= p.1
    &&& is_char_boundary(encode_utf8(text), p.0)
    &&& is_char_boundary(encode_utf8(text), p.1)
}

/// The text between two ordered character boundaries is empty exactly where they coincide.
proof fn lemma_byte_slice_nonempty(text: Seq<char>, p: (int, int))
    requires
        boundary_span(text, p),
    ensures
        (byte_slice(text, p.0, p.1).len() > 0) == nonempty_span(p),
{
    let bytes = encode_utf8(text);
    encode_utf8_valid_utf8(text);
    position::lemma_boundary_in_range(bytes, p.0);
    position::lemma_boundary_in_range(bytes, p.1);
    lemma_boundary_in_suffix(bytes, p.0, p.1);
    let rest = bytes.subrange(p.0, bytes.len() as int);
    valid_utf8_split(rest, p.1 - p.0);
    let sub = bytes.subrange(p.0, p.1);
    assert(rest.subrange(0, p.1 - p.0) =~= sub);
    vstd::utf8::decode_utf8_encode_utf8(sub);
    if byte_slice(text, p.0, p.1).len() == 0 {
        assert(decode_utf8(sub) =~= Seq::<char>::empty());
        assert(encode_utf8(Seq::<char>::empty()) =~= Seq::<u8>::empty());
    }
    if p.0 == p.1 {
        assert(sub =~= Seq::<u8>::empty());
    }
}

/// Mapping spans between character boundaries to their text and keeping the non-empty pieces
/// gives the text of the non-empty spans.
proof fn lemma_filter_map_spans(text: Seq<char>, ps: Seq<(int, int)>)
    requires
        forall|k: int| 0 <= k < ps.len() ==> boundary_span(text, #[trigger] ps[k]),
    ensures
        ps.filter(|q: (int, int)| nonempty_span(q)).map_values(
            |p: (int, int)| byte_slice(text, p.0, p.1),
        ) == ps.map_values(|p: (int, int)| byte_slice(text, p.0, p.1)).filter(
            |t: Seq<char>| t.len() > 0,
        ),
    decreases ps.len(),
{
    let fs = |q: (int, int)| nonempty_span(q);
    let ft = |t: Seq<char>| t.len() > 0;
    let bs = |p: (int, int)| byte_slice(text, p.0, p.1);
    reveal(Seq::filter);
    if ps.len() > 0 {
        let init = ps.drop_last();
        lemma_filter_map_spans(text, init);
        lemma_byte_slice_nonempty(text, ps.last());
        assert(ps.map_values(bs).drop_last() =~= init.map_values(bs));
        assert(ps.map_values(bs).last() == bs(ps.last()));
        assert(ps.filter(fs) == if fs(ps.last()) {
            init.filter(fs).push(ps.last())
        } else {
            init.filter(fs)
        });
        assert(ps.map_values(bs).filter(ft) == if ft(ps.map_values(bs).last()) {
            ps.map_values(bs).drop_last().filter(ft).push(ps.map_values(bs).last())
        } else {
            ps.map_values(bs).drop_last().filter(ft)
        });
        if fs(ps.last()) {
            assert(init.filter(fs).push(ps.last()).map_values(bs) =~= init.filter(fs).map_values(
                bs,
            ).push(bs(ps.last())));
        }
    } else {
        assert(ps.filter(fs) =~= Seq::<(int, int)>::empty());
        assert(ps.map_values(bs).filter(ft) =~= Seq::<Seq<char>>::empty());
    }
}

/// The gaps between successive non-overlapping matches with valid spans, the previous one
/// having ended at the boundary `last`, are ordered pairs of character boundaries.
proof fn lemma_gap_spans_bounded(
    text: Seq<char>,
    caps: Seq<Seq<Option<(usize, usize)>>>,
    i: int,
    last: int,
)
    requires
        0 <= i <= caps.len(),
        is_char_boundary(encode_utf8(text), last),
        forall|j: int| 0 <= j < caps.len() ==> valid_spans(text, #[trigger] caps[j]),
        forall|j: int, l: int|
            0 <= j < l < caps.len() ==> whole_match(#[trigger] caps[j]).1 <= whole_match(
                #[trigger] caps[l],
            ).0,
        forall|j: int| i <= j < caps.len() ==> last <= whole_match(#[trigger] caps[j]).0,
    ensures
        forall|k: int|
            0 <= k < gap_spans(caps, i, last, encode_utf8(text).len() as int).len()
                ==> boundary_span(
                text,
                #[trigger] gap_spans(caps, i, last, encode_utf8(text).len() as int)[k],
            ),
    decreases caps.len() - i,
{
    let n = encode_utf8(text).len() as int;
    encode_utf8_valid_utf8(text);
    position::lemma_boundary_in_range(encode_utf8(text), last);
    if i == caps.len() {
        is_char_boundary_start_end_of_seq(encode_utf8(text));
    } else {
        let g = caps[i];
        assert(valid_spans(text, g));
        assert(g[0] is Some);
        let (s, e) = whole_match(g);
        assert(match g[0] {
            Some((a, b)) => a <= b && is_char_boundary(encode_utf8(text), a as int)
                && is_char_boundary(encode_utf8(text), b as int),
            None => true,
        });
        assert forall|j: int| i + 1 <= j < caps.len() implies e <= whole_match(#[trigger] caps[j]).0 by {
            assert(whole_match(caps[i]).1 <= whole_match(caps[j]).0);
        }
        lemma_gap_spans_bounded(text, caps, i + 1, e);
        let rest = gap_spans(caps, i + 1, e, n);
        assert(gap_spans(caps, i, last, n) == seq![(last, s)] + rest);
        assert forall|k: int| 0 <= k < gap_spans(caps, i, last, n).len() implies boundary_span(
            text,
            #[trigger] gap_spans(caps, i, last, n)[k],
        ) by {
            if k > 0 {
                assert(gap_spans(caps, i, last, n)[k] == rest[k - 1]);
            }
        }
    }
}

/// Where no match has a capture group besides the whole match, and the matches are
/// successive and do not overlap, splitting with the groups kept gives the plain split without
/// its empty pieces.
pub proof fn lemma_split_text_is_nonempty_gap_text(
    text: Seq<char>,
    caps: Seq<Seq<Option<(usize, usize)>>>,
)
    requires
        forall|i: int| 0 <= i < caps.len() ==> #[trigger] caps[i].len() == 1,
        forall|i: int| 0 <= i < caps.len() ==> valid_spans(text, #[trigger] caps[i]),
        forall|i: int, j: int|
            0 <= i < j < caps.len() ==> whole_match(#[trigger] caps[i]).1 <= whole_match(
                #[trigger] caps[j],
            ).0,
    ensures
        split_text(text, caps) == gap_text(text, caps).filter(|t: Seq<char>| t.len() > 0),
{
    let n = encode_utf8(text).len() as int;
    lemma_split_is_nonempty_gaps(text, caps);
    encode_utf8_valid_utf8(text);
    is_char_boundary_start_end_of_seq(encode_utf8(text));
    lemma_gap_spans_bounded(text, caps, 0, 0);
    lemma_filter_map_spans(text, gap_spans(caps, 0, 0, n));
}

/// Splits `text` at the matches whose group byte spans are `captures`: the text before each
/// match (where there is any), then the text of each of its capture groups that took part,
/// and at the end the text after the last match (where there is any).
pub fn split_with_captures(text: &str, captures: &Vec<Vec<Option<(usize, usize)>>>) -> (r: Vec<String>)
    requires
        forall|i: int| 0 <= i < captures@.len() ==> valid_spans(text@, #[trigger] captures@[i]@),
    ensures
        r@.len() == split_text(text@, caps_view(captures@)).len(),
        forall|k: int|
            0 <= k < r@.len() ==> #[trigger] r@[k]@ == split_text(text@, caps_view(captures@))[k],
{
    let ghost cv = caps_view(captures@);
    let ghost n = text.spec_bytes().len() as int;
    let ghost total = split_spans(cv, 0, 0, n);
    let mut result: Vec<String> = Vec::new();
    let ghost mut done: Seq<(int, int)> = seq![];
    let mut last: usize = 0;
    let mut i: usize = 0;
    proof {
        encode_utf8_valid_utf8(text@);
        is_char_boundary_start_end_of_seq(text.spec_bytes());
        assert(done + split_spans(cv, 0, 0, n) =~= total);
    }
    while i < captures.len()
        invariant
            cv == caps_view(captures@),
            n == text.spec_bytes().len(),
            total == split_spans(cv, 0, 0, n),
            valid_utf8(text.spec_bytes()),
            forall|j: int| 0 <= j < captures@.len() ==> valid_spans(text@, #[trigger] captures@[j]@),
            i <= captures@.len(),
            is_char_boundary(text.spec_bytes(), last as int),
            done + split_spans(cv, i as int, last as int, n) == total,
            result@.len() == done.len(),
            forall|k: int|
                0 <= k < done.len() ==> #[trigger] result@[k]@ == byte_slice(text@, done[k].0, done[k].1),
        decreases captures@.len() - i,
    {
        let m = &captures[i];
        assert(cv[i as int] == m@);
        assert(valid_spans(text@, captures@[i as int]@));
        let (start, end) = match m[0] {
            Some(span) => span,
            None => (0, 0),
        };
        assert(m@[0] == Some((start, end)));
        let ghost rest = split_spans(cv, i + 1, end as int, n);
        let ghost pre = if start > last {
            seq![(last as int, start as int)]
        } else {
            seq![]
        };
        assert(split_spans(cv, i as int, last as int, n) == pre + inner_group_spans(m@, 1) + rest);
        let ghost before = done;
        if start > last {
            let piece = substring(text, last, start);
            result.push(piece);
            proof {
                done = done.push((last as int, start as int));
            }
        }
        proof {
            assert(done =~= before + pre);
            assert(done + inner_group_spans(m@, 1) + rest =~= total);
        }
        let mut k: usize = 1;
        while k < m.len()
            invariant
                m@ == cv[i as int],
                valid_spans(text@, m@),
                1 <= k <= m@.len(),
                done + inner_group_spans(m@, k as int) + rest == total,
                result@.len() == done.len(),
                forall|q: int|
                    0 <= q < done.len() ==> #[trigger] result@[q]@ == byte_slice(text@, done[q].0, done[q].1),
            decreases m@.len() - k,
        {
            let ghost before_k = done;
            assert(inner_group_spans(m@, k as int) == (match m@[k as int] {
                Some((s, e)) => seq![(s as int, e as int)],
                None => seq![],
            }) + inner_group_spans(m@, k + 1));
            match m[k] {
                Some((s, e)) => {
                    assert(m@[k as int] == Some((s, e)));
                    let piece = substring(text, s, e);
                    result.push(piece);
                    proof {
                        done = done.push((s as int, e as int));
                        assert(done + inner_group_spans(m@, k + 1) + rest =~= before_k
                            + inner_group_spans(m@, k as int) + rest);
                    }
                },
                None => {
                    proof {
                        assert(done + inner_group_spans(m@, k + 1) + rest =~= before_k
                            + inner_group_spans(m@, k as int) + rest);
                    }
                },
            }
            k = k + 1;
        }
        proof {
            assert(inner_group_spans(m@, k as int) =~= seq![]);
            assert(done + rest =~= total);
        }
        last = end;
        i = i + 1;
    }
    proof {
        is_char_boundary_start_end_of_seq(text.spec_bytes());
    }
    let len = text.as_bytes().len();
    if last < len {
        let piece = substring(text, last, len);
        result.push(piece);
        proof {
            done = done.push((last as int, n));
        }
    }
    assert(done =~= total);
    assert forall|k: int| 0 <= k < result@.len() implies #[trigger] result@[k]@ == split_text(
        text@,
        cv,
    )[k] by {
        assert(result@[k]@ == byte_slice(text@, done[k].0, done[k].1));
    }
    result
}

/// The named groups among `names` with their indices, in order.
pub open spec fn named_groups(names: Seq<Option<Seq<char>>>) -> Seq<(Seq<char>, int)>
    decreases names.len(),
{
    if names.len() == 0 {
        seq![]
    } else {
        let rest = named_groups(names.drop_last());
        match names.last() {
            Some(n) => rest.push((n, names.len() - 1)),
            None => rest,
        }
    }
}

/// The text that every error message of `Regex::new` starts with.
pub open spec fn invalid_regex_prefix() -> Seq<char> {
    "Invalid regex: "@
}

/// A pattern that could not be compiled.
#[derive(Debug, Clone)]
pub struct RegexError {
    pub message: String,
}

/// A compiled regular expression, with the names of its capture groups.
pub struct Regex {
    compiled: Compiled,
    names: Arc<Vec<Option<String>>>,
}

impl Regex {
    #[verifier::type_invariant]
    spec fn names_match(self) -> bool {
        &&& names_view((*self.names)@) == regex_capture_names(self.compiled.pattern())
        &&& (*self.names)@.len() >= 1
        &&& distinct_names(names_view((*self.names)@))
    }

    /// The pattern this regex was compiled from.
    pub closed spec fn spec_pattern(&self) -> Seq<char> {
        self.compiled.pattern()
    }

    /// The names of the capture groups, the whole match (group 0) first.
    pub open spec fn group_names(&self) -> Seq<Option<Seq<char>>> {
        regex_capture_names(self.spec_pattern())
    }

    /// Compiles a pattern in the regex crate's syntax.
    ///
    /// Fails exactly on the patterns that the regex crate refuses, with a message that starts
    /// with "Invalid regex: ".
    pub fn new(pattern: &str) -> (r: Result<Self, RegexError>)
        ensures
            r is Ok <==> regex_compiles(pattern@),
            r matches Ok(re) ==> re.spec_pattern() == pattern@ && distinct_names(re.group_names()),
            r matches Err(e) ==> e.message@.len() >= invalid_regex_prefix().len()
                && e.message@.subrange(0, invalid_regex_prefix().len() as int)
                == invalid_regex_prefix(),
    {
        match compile(pattern) {
            Ok(compiled) => {
                let names = capture_names(&compiled);
                Ok(Regex { compiled, names: Arc::new(names) })
            },
            Err(e) => {
                let detail = error_text(&e);
                let message = String::from_str("Invalid regex: ").concat(detail.as_str());
                proof {
                    assert(message@.subrange(0, invalid_regex_prefix().len() as int)
                        =~= invalid_regex_prefix());
                }
                Err(RegexError { message })
            },
        }
    }

    /// The pattern this regex was compiled from.
    pub fn pattern(&self) -> (r: &str)
        ensures
            r@ == self.spec_pattern(),
    {
        source(&self.compiled)
    }

    /// The number of capture groups, not counting the whole match.
    pub fn groups(&self) -> (r: usize)
        ensures
            r == self.group_names().len() - 1,
    {
        proof {
            use_type_invariant(self);
        }
        self.names.len() - 1
    }

    /// The named groups with their indices, in the order of the groups.
    pub fn group_index_pairs(&self) -> (r: Vec<(String, usize)>)
        ensures
            r@.len() == named_groups(self.group_names()).len(),
            forall|k: int|
                0 <= k < r@.len() ==> (#[trigger] r@[k]).0@ == named_groups(self.group_names())[k].0
                    && r@[k].1 == named_groups(self.group_names())[k].1,
    {
        proof {
            use_type_invariant(self);
        }
        let ghost names = self.group_names();
        let mut result: Vec<(String, usize)> = Vec::new();
        let mut i: usize = 0;
        while i < self.names.len()
            invariant
                names == names_view((*self.names)@),
                i <= names.len(),
                result@.len() == named_groups(names.take(i as int)).len(),
                forall|k: int|
                    0 <= k < result@.len() ==> (#[trigger] result@[k]).0@ == named_groups(
                        names.take(i as int),
                    )[k].0 && result@[k].1 == named_groups(names.take(i as int))[k].1,
            decreases names.len() - i,
        {
            assert(names.take(i + 1).drop_last() =~= names.take(i as int));
            match &self.names[i] {
                Some(n) => {
                    result.push((n.clone(), i));
                },
                None => {},
            }
            i = i + 1;
        }
        assert(names.take(i as int) =~= names);
        result
    }

    /// `map` maps each group name to the index of a group of that name, and holds every group
    /// name.
    pub open spec fn indexes_groups(&self, map: Map<String, usize>) -> bool {
        &&& forall|k: String| #[trigger]
            map.contains_key(k) ==> 0 <= map[k] < self.group_names().len()
                && self.group_names()[map[k] as int] == Some(k@)
        &&& forall|i: int|
            0 <= i < self.group_names().len() && #[trigger] self.group_names()[i] is Some
                ==> exists|k: String| k@ == self.group_names()[i]->0 && #[trigger] map.contains_key(k)
    }

    /// A map from each group name to the index of its group.
    ///
    /// What is proved of the map holds where `String` keys obey vstd's model of hashing.
    pub fn groupindex(&self) -> (r: HashMap<String, usize>)
        ensures
            obeys_key_model::<String>() ==> self.indexes_groups(r@),
    {
        broadcast use vstd::std_specs::hash::group_hash_axioms;

        proof {
            use_type_invariant(self);
        }
        let ghost names = self.group_names();
        let mut map: HashMap<String, usize> = HashMap::new();
        let mut i: usize = 0;
        while i < self.names.len()
            invariant
                names == names_view((*self.names)@),
                i <= names.len(),
                obeys_key_model::<String>() ==> {
                    &&& forall|k: String| #[trigger]
                        map@.contains_key(k) ==> 0 <= map@[k] < i && names[map@[k] as int] == Some(k@)
                    &&& forall|j: int|
                        0 <= j < i && #[trigger] names[j] is Some ==> exists|k: String|
                            k@ == names[j]->0 && #[trigger] map@.contains_key(k)
                },
            decreases names.len() - i,
        {
            match &self.names[i] {
                Some(n) => {
                    let key = n.clone();
                    let ghost before = map@;
                    map.insert(key, i);
                    proof {
                        if obeys_key_model::<String>() {
                            assert(map@ == before.insert(key, i));
                            assert(names[i as int] == Some(key@));
                            assert forall|j: int|
                                0 <= j < i + 1 && #[trigger] names[j] is Some implies exists|k: String|
                                k@ == names[j]->0 && #[trigger] map@.contains_key(k) by {
                                if j < i {
                                    let k0 = choose|k: String| k@ == names[j]->0 && before.contains_key(k);
                                    assert(map@.contains_key(k0));
                                } else {
                                    assert(map@.contains_key(key));
                                }
                            }
                        }
                    }
                },
                None => {},
            }
            i = i + 1;
        }
        map
    }

    /// The first match at or after character position `pos` of `text`.
    ///
    /// The character position is translated to a byte offset as `to_byte_pos` does; the
    /// regex crate panics on an offset past the end of the text, so that is excluded.
    pub fn search(&self, text: &str, pos: usize) -> (r: Option<RegexMatch>)
        requires
            to_byte_pos_defined(text, pos as int),
            spec_to_byte_pos(text, pos as int) <= text.spec_bytes().len(),
        ensures
            match regex_captures_at(
                self.spec_pattern(),
                text@,
                spec_to_byte_pos(text, pos as int) as usize,
            ) {
                Some(g) => r matches Some(m) && m.spans() == char_spans(text@, g) && m.group_names()
                    == self.group_names() && g.len() == self.group_names().len(),
                None => r is None,
            },
    {
        proof {
            use_type_invariant(self);
        }
        let mut translator = PosTranslator::new(text);
        let start = to_byte_pos(text, pos);
        match captures_at(&self.compiled, text, start) {
            Some(groups) => Some(RegexMatch::from_captures(&mut translator, &groups, share(&self.names))),
            None => None,
        }
    }

    /// All successive non-overlapping matches in `text`.
    pub fn findall(&self, text: &str) -> (r: Vec<RegexMatch>)
        ensures
            r@.len() == regex_captures_all(self.spec_pattern(), text@).len(),
            forall|i: int|
                0 <= i < r@.len() ==> (#[trigger] r@[i]).spans() == char_spans(
                    text@,
                    regex_captures_all(self.spec_pattern(), text@)[i],
                ) && r@[i].group_names() == self.group_names()
                    && regex_captures_all(self.spec_pattern(), text@)[i].len()
                    == self.group_names().len(),
    {
        proof {
            use_type_invariant(self);
        }
        let mut translator = PosTranslator::new(text);
        let all = captures_all(&self.compiled, text);
        let mut result: Vec<RegexMatch> = Vec::new();
        let mut i: usize = 0;
        while i < all.len()
            invariant
                translator.wf(),
                translator.text_view() == text@,
                names_view((*self.names)@) == self.group_names(),
                all@.len() == regex_captures_all(self.spec_pattern(), text@).len(),
                forall|j: int|
                    0 <= j < all@.len() ==> #[trigger] all@[j]@ == regex_captures_all(
                        self.spec_pattern(),
                        text@,
                    )[j] && valid_spans(text@, all@[j]@) && all@[j]@.len() == self.group_names().len(),
                i <= all@.len(),
                result@.len() == i,
                forall|j: int|
                    0 <= j < i ==> (#[trigger] result@[j]).spans() == char_spans(
                        text@,
                        regex_captures_all(self.spec_pattern(), text@)[j],
                    ) && result@[j].group_names() == self.group_names()
                        && regex_captures_all(self.spec_pattern(), text@)[j].len()
                        == self.group_names().len(),
            decreases all@.len() - i,
        {
            assert(valid_spans(text@, all@[i as int]@));
            let m = RegexMatch::from_captures(&mut translator, &all[i], share(&self.names));
            let ghost before = result@;
            result.push(m);
            proof {
                assert(result@[i as int] == m);
                assert(m.spans() == char_spans(text@, regex_captures_all(self.spec_pattern(), text@)[i as int]));
                assert(m.group_names() == self.group_names());
                assert(regex_captures_all(self.spec_pattern(), text@)[i as int].len() == self.group_names().len());
                assert forall|j: int| 0 <= j < i + 1 implies (#[trigger] result@[j]).spans() == char_spans(
                    text@,
                    regex_captures_all(self.spec_pattern(), text@)[j],
                ) && result@[j].group_names() == self.group_names()
                    && regex_captures_all(self.spec_pattern(), text@)[j].len()
                    == self.group_names().len() by {
                    if j < i {
                        assert(result@[j] == before[j]);
                    }
                }
            }
            i = i + 1;
        }
        result
    }

    /// Splits `text` at the matches, keeping the text of the capture groups that took part in
    /// each match between the pieces.
    ///
    /// Each match has one group span per group of the regex. Where the regex has no capture
    /// group, the pieces are those of `split_without_captures` without the empty ones.
    pub fn split(&self, text: &str) -> (r: Vec<String>)
        ensures
            r@.len() == split_text(text@, regex_captures_all(self.spec_pattern(), text@)).len(),
            forall|k: int|
                0 <= k < r@.len() ==> #[trigger] r@[k]@ == split_text(
                    text@,
                    regex_captures_all(self.spec_pattern(), text@),
                )[k],
            forall|i: int|
                0 <= i < regex_captures_all(self.spec_pattern(), text@).len() ==> (#[trigger] regex_captures_all(
                    self.spec_pattern(),
                    text@,
                )[i]).len() == self.group_names().len(),
            self.group_names().len() == 1 ==> r@.map_values(|s: String| s@) == gap_text(
                text@,
                regex_captures_all(self.spec_pattern(), text@),
            ).filter(|t: Seq<char>| t.len() > 0),
    {
        proof {
            use_type_invariant(self);
        }
        let all = captures_all(&self.compiled, text);
        let ghost caps = regex_captures_all(self.spec_pattern(), text@);
        assert(caps_view(all@) =~= caps);
        let r = split_with_captures(text, &all);
        proof {
            assert forall|i: int| 0 <= i < caps.len() implies (#[trigger] caps[i]).len()
                == self.group_names().len() by {
                assert(all@[i]@ == caps[i]);
            }
            if self.group_names().len() == 1 {
                assert forall|i: int| 0 <= i < caps.len() implies valid_spans(text@, #[trigger] caps[i]) by {
                    assert(all@[i]@ == caps[i]);
                }
                assert forall|i: int, j: int| 0 <= i < j < caps.len() implies whole_match(
                    #[trigger] caps[i],
                ).1 <= whole_match(#[trigger] caps[j]).0 by {
                    assert(all@[i]@ == caps[i]);
                    assert(all@[j]@ == caps[j]);
                }
                lemma_split_text_is_nonempty_gap_text(text@, caps);
                assert(r@.map_values(|s: String| s@) =~= split_text(text@, caps));
            }
        }
        r
    }

    /// Splits `text` at the matches, dropping the matched text.
    pub fn split_without_captures(&self, text: &str) -> (r: Vec<String>)
        ensures
            r@.len() == gap_text(text@, regex_captures_all(self.spec_pattern(), text@)).len(),
            forall|k: int|
                0 <= k < r@.len() ==> #[trigger] r@[k]@ == gap_text(
                    text@,
                    regex_captures_all(self.spec_pattern(), text@),
                )[k],
    {
        split_pieces(&self.compiled, text)
    }
}

/// One match: the character spans of its capture groups, and the names of the groups.
#[derive(Debug)]
pub struct RegexMatch {
    groups: Vec<Option<Range<usize>>>,
    names: Arc<Vec<Option<String>>>,
}

impl RegexMatch {
    #[verifier::type_invariant]
    spec fn has_whole_match(self) -> bool {
        self.groups@.len() >= 1 && self.groups@[0] is Some
    }

    /// The character spans of the groups, the whole match first; `None` for a group that
    /// took no part in the match.
    pub closed spec fn spans(&self) -> Seq<Option<(int, int)>> {
        self.groups@.map_values(
            |g: Option<Range<usize>>|
                match g {
                    Some(r) => Some((r.start as int, r.end as int)),
                    None => None,
                },
        )
    }

    /// The names of the groups, the whole match first.
    pub closed spec fn group_names(&self) -> Seq<Option<Seq<char>>> {
        names_view((*self.names)@)
    }

    /// `r` is what looking up group `i` gives: its span where the group exists and took part
    /// in the match, else nothing.
    pub open spec fn group_result(&self, i: int, r: Option<Range<usize>>) -> bool {
        match r {
            Some(rg) => 0 <= i < self.spans().len() && self.spans()[i] == Some(
                (rg.start as int, rg.end as int),
            ),
            None => !(0 <= i < self.spans().len()) || self.spans()[i] is None,
        }
    }

    /// `r` is what looking up the group named `name` gives: nothing where no group has that
    /// name, else what looking up the first group of that name gives.
    pub open spec fn by_name_result(&self, name: Seq<char>, r: Option<Range<usize>>) -> bool {
        &&& (forall|i: int|
            0 <= i < self.group_names().len() ==> self.group_names()[i] != Some(name))
            ==> r is None
        &&& forall|i: int|
            0 <= i < self.group_names().len() && self.group_names()[i] == Some(name) && (forall|
                j: int,
            | 0 <= j < i ==> self.group_names()[j] != Some(name)) ==> self.group_result(i, r)
    }

    fn first(&self) -> (r: &Range<usize>)
        ensures
            self.spans()[0] == Some((r.start as int, r.end as int)),
    {
        proof {
            use_type_invariant(self);
        }
        match &self.groups[0] {
            Some(r) => r,
            None => vstd::pervasive::unreached(),
        }
    }

    /// Builds a match from the byte spans of its groups in the text of `translator`,
    /// translating them to character positions.
    pub fn from_captures(
        translator: &mut PosTranslator<'_>,
        captures: &Vec<Option<(usize, usize)>>,
        names: Arc<Vec<Option<String>>>,
    ) -> (r: Self)
        requires
            old(translator).wf(),
            valid_spans(old(translator).text_view(), captures@),
        ensures
            final(translator).wf(),
            final(translator).text_view() == old(translator).text_view(),
            r.spans() == char_spans(old(translator).text_view(), captures@),
            r.group_names() == names_view((*names)@),
    {
        let ghost text = translator.text_view();
        let mut groups: Vec<Option<Range<usize>>> = Vec::new();
        let mut i: usize = 0;
        while i < captures.len()
            invariant
                translator.wf(),
                translator.text_view() == text,
                valid_spans(text, captures@),
                i <= captures@.len(),
                groups@.len() == i,
                forall|j: int|
                    0 <= j < i ==> match #[trigger] groups@[j] {
                        Some(rg) => char_spans(text, captures@)[j] == Some(
                            (rg.start as int, rg.end as int),
                        ),
                        None => char_spans(text, captures@)[j] is None,
                    },
            decreases captures@.len() - i,
        {
            match captures[i] {
                Some((s, e)) => {
                    assert(captures@[i as int] == Some((s, e)));
                    let start = translator.get_char_pos(s);
                    let end = translator.get_char_pos(e);
                    groups.push(Some(Range { start, end }));
                },
                None => {
                    groups.push(None);
                },
            }
            i = i + 1;
        }
        let r = RegexMatch { groups, names };
        assert(r.spans() =~= char_spans(text, captures@));
        r
    }

    /// The character position where the match starts.
    pub fn start(&self) -> (r: usize)
        ensures
            self.spans()[0] matches Some(s) && r == s.0,
    {
        self.first().start
    }

    /// The character position where the match ends.
    pub fn end(&self) -> (r: usize)
        ensures
            self.spans()[0] matches Some(s) && r == s.1,
    {
        self.first().end
    }

    /// The character span of group `index`, if that group exists and took part in the match.
    pub fn get(&self, index: usize) -> (r: Option<Range<usize>>)
        ensures
            self.group_result(index as int, r),
    {
        if index < self.groups.len() {
            match &self.groups[index] {
                Some(rg) => Some(Range { start: rg.start, end: rg.end }),
                None => None,
            }
        } else {
            None
        }
    }

    /// The character span of the first group named `name`, if there is such a group and it
    /// took part in the match.
    pub fn get_by_name(&self, name: &str) -> (r: Option<Range<usize>>)
        ensures
            self.by_name_result(name@, r),
    {
        let mut i: usize = 0;
        while i < self.names.len()
            invariant
                i <= self.group_names().len(),
                self.group_names() == names_view((*self.names)@),
                forall|j: int| 0 <= j < i ==> self.group_names()[j] != Some(name@),
            decreases self.group_names().len() - i,
        {
            let found = match &self.names[i] {
                Some(n) => same_text(n.as_str(), name),
                None => false,
            };
            if found {
                assert(self.group_names()[i as int] == Some(name@));
                return self.get(i);
            }
            i = i + 1;
        }
        None
    }
}

/// Where no two groups share a name (as for every regex that `Regex::new` compiles), looking
/// a group up by its name gives what looking up the index of that name gives: the index that
/// `Regex::groupindex` maps the name to.
pub proof fn lemma_get_by_name_is_get_of_index(
    m: &RegexMatch,
    name: Seq<char>,
    i: int,
    r: Option<Range<usize>>,
)
    requires
        distinct_names(m.group_names()),
        0 <= i < m.group_names().len(),
        m.group_names()[i] == Some(name),
        m.by_name_result(name, r),
    ensures
        m.group_result(i, r),
{
    assert forall|j: int| 0 <= j < i implies m.group_names()[j] != Some(name) by {
        assert(m.group_names()[i] is Some);
    }
}

/// Each entry of `named_groups(names)` is a named group with its index, and every named group
/// has its entry.
pub proof fn lemma_named_groups(names: Seq<Option<Seq<char>>>)
    ensures
        forall|k: int|
            0 <= k < named_groups(names).len() ==> 0 <= (#[trigger] named_groups(names)[k]).1
                < names.len() && names[named_groups(names)[k].1] == Some(named_groups(names)[k].0),
        forall|i: int|
            0 <= i < names.len() && (#[trigger] names[i]) is Some ==> exists|k: int|
                0 <= k < named_groups(names).len() && #[trigger] named_groups(names)[k] == (
                    names[i]->0,
                    i,
                ),
    decreases names.len(),
{
    if names.len() > 0 {
        let init = names.drop_last();
        lemma_named_groups(init);
        let rest = named_groups(init);
        let n = names.len() - 1;
        assert forall|i: int| 0 <= i < names.len() && (#[trigger] names[i]) is Some implies exists|
            k: int,
        | 0 <= k < named_groups(names).len() && #[trigger] named_groups(names)[k] == (
            names[i]->0,
            i,
        ) by {
            if i < n {
                assert(init[i] == names[i]);
                let k = choose|k: int| 0 <= k < rest.len() && #[trigger] rest[k] == (init[i]->0, i);
                assert(named_groups(names)[k] == rest[k]);
            } else {
                assert(named_groups(names)[rest.len() as int] == (names[i]->0, i));
            }
        }
        assert forall|k: int| 0 <= k < named_groups(names).len() implies 0 <= (#[trigger] named_groups(
            names,
        )[k]).1 < names.len() && names[named_groups(names)[k].1] == Some(named_groups(names)[k].0) by {
            if k < rest.len() {
                assert(named_groups(names)[k] == rest[k]);
                assert(init[rest[k].1] == names[rest[k].1]);
            }
        }
    }
}

/// For a match `m` of the regex `re`, looking a group up by a name that `group_index_pairs`
/// lists gives what looking up the index listed with it gives; a name it does not list gives
/// nothing.
pub proof fn lemma_get_by_name_is_get_of_pair(
    re: &Regex,
    m: &RegexMatch,
    name: Seq<char>,
    r: Option<Range<usize>>,
)
    requires
        distinct_names(re.group_names()),
        m.group_names() == re.group_names(),
        m.by_name_result(name, r),
    ensures
        forall|k: int|
            0 <= k < named_groups(re.group_names()).len() && (#[trigger] named_groups(
                re.group_names(),
            )[k]).0 == name ==> m.group_result(named_groups(re.group_names())[k].1, r),
        (forall|k: int|
            0 <= k < named_groups(re.group_names()).len() ==> (#[trigger] named_groups(
                re.group_names(),
            )[k]).0 != name) ==> r is None,
{
    let names = re.group_names();
    lemma_named_groups(names);
    assert forall|k: int|
        0 <= k < named_groups(names).len() && (#[trigger] named_groups(names)[k]).0 == name implies m.group_result(
        named_groups(names)[k].1,
        r,
    ) by {
        lemma_get_by_name_is_get_of_index(m, name, named_groups(names)[k].1, r);
    }
    if forall|k: int| 0 <= k < named_groups(names).len() ==> (#[trigger] named_groups(names)[k]).0 != name {
        assert forall|i: int| 0 <= i < names.len() implies names[i] != Some(name) by {
            if names[i] == Some(name) {
                assert(names[i] is Some);
                let k = choose|k: int| 0 <= k < named_groups(names).len() && #[trigger] named_groups(names)[k] == (
                    names[i]->0,
                    i,
                );
                assert(named_groups(names)[k].0 == name);
            }
        }
    }
}

/// For a match `m` of the regex `re` and the map `map` that `re.groupindex()` gives, looking a
/// group up by name gives what looking up the index that `map` holds for that name gives, and
/// nothing where `map` holds no such name: `get_by_name(name)` is
/// `groupindex().get(name).and_then(|i| get(i))`.
pub proof fn lemma_get_by_name_is_get_of_groupindex(
    re: &Regex,
    map: Map<String, usize>,
    m: &RegexMatch,
    name: Seq<char>,
    r: Option<Range<usize>>,
)
    requires
        re.indexes_groups(map),
        distinct_names(re.group_names()),
        m.group_names() == re.group_names(),
        m.by_name_result(name, r),
    ensures
        forall|k: String| #[trigger] map.contains_key(k) && k@ == name ==> m.group_result(map[k] as int, r),
        (forall|k: String| #[trigger] map.contains_key(k) ==> k@ != name) ==> r is None,
{
    let names = re.group_names();
    assert forall|k: String| #[trigger] map.contains_key(k) && k@ == name implies m.group_result(
        map[k] as int,
        r,
    ) by {
        lemma_get_by_name_is_get_of_index(m, name, map[k] as int, r);
    }
    if forall|k: String| #[trigger] map.contains_key(k) ==> k@ != name {
        assert forall|i: int| 0 <= i < names.len() implies names[i] != Some(name) by {
            if names[i] == Some(name) {
                assert(names[i] is Some);
                let k = choose|k: String| k@ == names[i]->0 && #[trigger] map.contains_key(k);
                assert(map.contains_key(k));
            }
        }
    }
}

} // verus!
