use regex::Error as EngineError;
use regex::Regex as Engine;
use vstd::prelude::*;
use vstd::string::StringSliceAdditionalSpecFns;
use vstd::utf8::{decode_utf8, encode_utf8, is_char_boundary};

verus! {

#[verifier::external_type_specification]
#[verifier::external_body]
pub struct ExCompiledRegex(Engine);

#[verifier::external_type_specification]
#[verifier::external_body]
pub struct ExRegexSyntaxError(EngineError);

/// Whether the regex crate accepts `pattern` (valid syntax, within the default size limit).
pub uninterp spec fn regex_compiles(pattern: Seq<char>) -> bool;

/// The capture group names of `pattern`, group 0 (the whole match) first.
pub uninterp spec fn regex_capture_names(pattern: Seq<char>) -> Seq<Option<Seq<char>>>;

/// The byte spans of the capture groups of the leftmost-first match of `pattern` in
/// `haystack` that starts at byte offset `start` or later, if there is one.
pub uninterp spec fn regex_captures_at(pattern: Seq<char>, haystack: Seq<char>, start: usize) -> Option<
    Seq<Option<(usize, usize)>>,
>;

/// The byte spans of the capture groups of each successive non-overlapping match of `pattern`
/// in `haystack`.
pub uninterp spec fn regex_captures_all(pattern: Seq<char>, haystack: Seq<char>) -> Seq<
    Seq<Option<(usize, usize)>>,
>;

/// The group spans of one match as the regex crate hands them out: at least the whole match,
/// which is always present, and every span ordered and on character boundaries of `text`.
pub open spec fn valid_spans(text: Seq<char>, groups: Seq<Option<(usize, usize)>>) -> bool {
    &&& groups.len() >= 1
    &&& groups[0] is Some
    &&& forall|i: int|
        0 <= i < groups.len() ==> match #[trigger] groups[i] {
            Some((s, e)) => s <= e && is_char_boundary(encode_utf8(text), s as int)
                && is_char_boundary(encode_utf8(text), e as int),
            None => true,
        }
}

/// The names of a list of groups as character sequences.
pub open spec fn names_view(names: Seq<Option<String>>) -> Seq<Option<Seq<char>>> {
    names.map_values(
        |n: Option<String>|
            match n {
                Some(s) => Some(s@),
                None => None,
            },
    )
}

/// No name is given to two groups.
pub open spec fn distinct_names(names: Seq<Option<Seq<char>>>) -> bool {
    forall|i: int, j: int|
        0 <= i < names.len() && 0 <= j < names.len() && i != j && #[trigger] names[i] is Some
            ==> names[i] != #[trigger] names[j]
}

/// The text between byte offsets `a` and `b` of `text`.
pub open spec fn byte_slice(text: Seq<char>, a: int, b: int) -> Seq<char> {
    decode_utf8(encode_utf8(text).subrange(a, b))
}

/// The byte span of the whole match (group 0) among the group spans of a match.
pub open spec fn whole_match(groups: Seq<Option<(usize, usize)>>) -> (int, int) {
    match groups[0] {
        Some((s, e)) => (s as int, e as int),
        None => (0, 0),
    }
}

/// The byte spans of the gaps between the matches `caps[i..]`, the previous match having ended
/// at byte `last` of a text of `len` bytes: the gap before each match, and at the end the
/// rest of the text, each of them whether it is empty or not.
pub open spec fn gap_spans(caps: Seq<Seq<Option<(usize, usize)>>>, i: int, last: int, len: int) -> Seq<
    (int, int),
>
    decreases caps.len() - i,
{
    if i < 0 || i >= caps.len() {
        seq![(last, len)]
    } else {
        seq![(last, whole_match(caps[i]).0)] + gap_spans(caps, i + 1, whole_match(caps[i]).1, len)
    }
}

/// The pieces of `text` between the matches `caps`: the text before each match, and the text
/// after the last one.
pub open spec fn gap_text(text: Seq<char>, caps: Seq<Seq<Option<(usize, usize)>>>) -> Seq<Seq<char>> {
    gap_spans(caps, 0, 0, encode_utf8(text).len() as int).map_values(
        |p: (int, int)| byte_slice(text, p.0, p.1),
    )
}

/// A regex of the regex crate together with the pattern it was compiled from. Only `compile`
/// builds one, so the two always belong together.
pub struct Compiled {
    inner: Engine,
    pattern: Ghost<Seq<char>>,
}

impl Compiled {
    /// The pattern the regex was compiled from.
    pub closed spec fn pattern(&self) -> Seq<char> {
        self.pattern@
    }
}

/// `regex::Regex::new`, kept with its pattern: it succeeds exactly on the patterns that the
/// regex crate accepts, and the regex it gives was compiled from `pattern`.
#[verifier::external_body]
pub(crate) fn compile(pattern: &str) -> (r: Result<Compiled, EngineError>)
    ensures
        r is Ok <==> regex_compiles(pattern@),
        r matches Ok(c) ==> c.pattern() == pattern@,
{
    match Engine::new(pattern) {
        Ok(inner) => Ok(Compiled { inner, pattern: Ghost(pattern@) }),
        Err(e) => Err(e),
    }
}

/// The message of a regex error, as its `Display` writes it. Nothing is stated of its text.
#[verifier::external_body]
pub(crate) fn error_text(e: &EngineError) -> String {
    e.to_string()
}

/// `regex::Regex::as_str`: the pattern the regex was compiled from.
#[verifier::external_body]
pub(crate) fn source<'a>(c: &'a Compiled) -> (r: &'a str)
    ensures
        r@ == c.pattern(),
{
    c.inner.as_str()
}

/// `regex::Regex::capture_names`, collected: one entry per group, the whole match first and
/// unnamed. The parser of regex-syntax refuses a pattern that gives one name to two groups, so
/// the names are distinct.
#[verifier::external_body]
pub(crate) fn capture_names(c: &Compiled) -> (r: Vec<Option<String>>)
    ensures
        names_view(r@) == regex_capture_names(c.pattern()),
        r@.len() >= 1,
        r@[0] is None,
        distinct_names(names_view(r@)),
{
    c.inner.capture_names().map(|n| n.map(|n| n.to_owned())).collect()
}

/// `regex::Regex::captures_at`, with each group reduced to its byte span. The regex crate
/// panics on a start past the end of the haystack; its spans are ordered and lie on
/// character boundaries, group 0 is always present, and a match has one entry per group of
/// the pattern, as `capture_names` lists them.
#[verifier::external_body]
pub(crate) fn captures_at(c: &Compiled, text: &str, start: usize) -> (r: Option<
    Vec<Option<(usize, usize)>>,
>)
    requires
        start <= text.spec_bytes().len(),
    ensures
        match r {
            Some(g) => regex_captures_at(c.pattern(), text@, start) == Some(g@) && valid_spans(
                text@,
                g@,
            ) && g@.len() == regex_capture_names(c.pattern()).len(),
            None => regex_captures_at(c.pattern(), text@, start) is None,
        },
{
    c.inner.captures_at(text, start).map(|caps| caps.iter().map(|m| m.map(|m| (m.start(), m.end()))).collect())
}

/// `regex::Regex::captures_iter`, collected, with each group reduced to its byte span. Each
/// match has one entry per group of the pattern, and the matches are successive and do not
/// overlap, as the crate documents: each starts where the one before it ended or later.
#[verifier::external_body]
pub(crate) fn captures_all(c: &Compiled, text: &str) -> (r: Vec<Vec<Option<(usize, usize)>>>)
    ensures
        r@.len() == regex_captures_all(c.pattern(), text@).len(),
        forall|i: int, j: int|
            0 <= i < j < r@.len() ==> whole_match(#[trigger] r@[i]@).1 <= whole_match(
                #[trigger] r@[j]@,
            ).0,
        forall|i: int|
            0 <= i < r@.len() ==> #[trigger] r@[i]@ == regex_captures_all(c.pattern(), text@)[i]
                && valid_spans(text@, r@[i]@) && r@[i]@.len() == regex_capture_names(
                c.pattern(),
            ).len(),
{
    c.inner.captures_iter(text).map(|caps| caps.iter().map(|m| m.map(|m| (m.start(), m.end()))).collect()).collect()
}

/// `regex::Regex::split`, with each piece copied into a `String`. The regex crate documents
/// that `captures_iter` yields the same matches as `find_iter`, and its split yields the text
/// from the end of the previous match (or the start) to the start of each match found by
/// `find_iter`, then the rest of the text after the last match.
#[verifier::external_body]
pub(crate) fn split_pieces(c: &Compiled, text: &str) -> (r: Vec<String>)
    ensures
        r@.len() == gap_text(text@, regex_captures_all(c.pattern(), text@)).len(),
        forall|i: int|
            0 <= i < r@.len() ==> #[trigger] r@[i]@ == gap_text(
                text@,
                regex_captures_all(c.pattern(), text@),
            )[i],
{
    c.inner.split(text).map(|s| s.to_owned()).collect()
}

} // verus!
