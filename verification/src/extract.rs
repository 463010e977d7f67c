//! Pulling the article text out of a page body: the text fields that the
//! pattern finds, each taken by the value of its JSON string, joined in the
//! order in which they stand in the body.

use crate::error::ClientError;
use crate::unescape::{json_string_value, unescape};
use regex::Regex;
use vstd::prelude::*;

verus! {

/// Whether `Regex::new` accepts the pattern.
pub uninterp spec fn pattern_compiles(pattern: Seq<char>) -> bool;

/// For a pattern that compiles: of each successive non-overlapping match of
/// the pattern in `body`, in the order in which they stand there, the text
/// that the first capture group took, or the empty text where that group
/// took no part in the match.
pub uninterp spec fn pattern_captures(pattern: Seq<char>, body: Seq<char>) -> Seq<Seq<char>>;

/// The texts of a vector of strings.
pub open spec fn texts_of(segments: Seq<String>) -> Seq<Seq<char>> {
    Seq::new(segments.len(), |i: int| segments[i]@)
}

/// Compiles `pattern` with `Regex::new` and walks `body` with
/// `Regex::captures_iter`, taking from each match the text that
/// `Captures::get` gives for group 1, or the empty text where it gives none.
/// It fails exactly when the pattern does not compile, with `regex`'s error;
/// what it finds is a function of the pattern and the body alone.
#[verifier::external_body]
pub(crate) fn first_group_of_each_match(pattern: &str, body: &str) -> (r: Result<
    Vec<String>,
    regex::Error,
>)
    ensures
        r is Ok <==> pattern_compiles(pattern@),
        r matches Ok(found) ==> texts_of(found@) == pattern_captures(pattern@, body@),
{
    let re = Regex::new(pattern)?;
    Ok(re.captures_iter(body).map(|c| c.get(1).map_or("", |m| m.as_str()).to_owned()).collect())
}

/// The segments written one after another with a single space between
/// neighbours: nothing before the first, nothing after the last.
pub open spec fn joined(segments: Seq<Seq<char>>) -> Seq<char>
    decreases segments.len(),
{
    if segments.len() == 0 {
        Seq::empty()
    } else if segments.len() == 1 {
        segments[0]
    } else {
        joined(segments.drop_last()) + seq![' '] + segments.last()
    }
}

/// Where segment `k` starts in the joined text: behind the segments before
/// it and one separator for each of them.
pub open spec fn segment_start(segments: Seq<Seq<char>>, k: int) -> int
    decreases k,
{
    if k <= 0 {
        0
    } else {
        segment_start(segments, k - 1) + segments[k - 1].len() + 1
    }
}

proof fn lemma_start_of_prefix(segments: Seq<Seq<char>>, n: int, k: int)
    requires
        0 <= k <= n <= segments.len(),
    ensures
        segment_start(segments.take(n), k) == segment_start(segments, k),
    decreases k,
{
    if k > 0 {
        lemma_start_of_prefix(segments, n, k - 1);
    }
}

/// Segment `k` stands whole in the joined text, at `segment_start`.
pub open spec fn segment_stands(segments: Seq<Seq<char>>, k: int) -> bool {
    let at = segment_start(segments, k);
    &&& 0 <= at
    &&& at + segments[k].len() <= joined(segments).len()
    &&& joined(segments).subrange(at, at + segments[k].len()) == segments[k]
}

/// The character of the joined text just before segment `k`.
pub open spec fn separator_before(segments: Seq<Seq<char>>, k: int) -> char {
    joined(segments)[segment_start(segments, k) - 1]
}

/// The joined text of `n` segments holds exactly those `n` segments, in
/// their order, with a single space between neighbours and nothing else:
/// segment `k` stands at `segment_start(segments, k)`, a space stands before
/// every segment but the first, and the text ends with the last segment.
pub proof fn lemma_joined_layout(segments: Seq<Seq<char>>)
    ensures
        segments.len() == 0 ==> joined(segments).len() == 0,
        segments.len() > 0 ==> joined(segments).len() + 1 == segment_start(
            segments,
            segments.len() as int,
        ),
        forall|k: int| 0 <= k < segments.len() ==> segment_stands(segments, k),
        forall|k: int| 0 < k < segments.len() ==> separator_before(segments, k) == ' ',
    decreases segments.len(),
{
    let n = segments.len() as int;
    let whole = joined(segments);
    if n == 1 {
        assert(segment_start(segments, 0) == 0);
        assert(segment_start(segments, 1) == segments[0].len() + 1);
        assert(whole.subrange(0, segments[0].len() as int) =~= segments[0]);
        assert(segment_stands(segments, 0));
    } else if n > 1 {
        let front = segments.drop_last();
        let head = joined(front);
        lemma_joined_layout(front);
        assert(front == segments.take(n - 1));
        lemma_start_of_prefix(segments, n - 1, n - 1);
        assert(whole == head + seq![' '] + segments.last());
        assert forall|k: int| 0 <= k < n implies segment_stands(segments, k) by {
            let at = segment_start(segments, k);
            if k < n - 1 {
                lemma_start_of_prefix(segments, n - 1, k);
                assert(front[k] == segments[k]);
                assert(segment_stands(front, k));
                assert(whole.subrange(at, at + segments[k].len()) =~= head.subrange(
                    at,
                    at + segments[k].len(),
                ));
            } else {
                assert(at == head.len() + 1);
                assert(whole.subrange(at, at + segments[k].len()) =~= segments[k]);
            }
        }
        assert forall|k: int| 0 < k < n implies separator_before(segments, k) == ' ' by {
            if k < n - 1 {
                lemma_start_of_prefix(segments, n - 1, k);
                lemma_start_of_prefix(segments, n - 1, k - 1);
                assert(segment_stands(front, k));
                assert(segment_stands(front, k - 1));
                assert(separator_before(front, k) == ' ');
            } else {
                assert(whole[head.len() as int] == ' ');
            }
        }
    }
}

/// Joins the segments with single spaces, in their order.
pub fn join_segments(segments: &Vec<String>) -> (text: String)
    ensures
        text@ == joined(texts_of(segments@)),
{
    let mut text = String::new();
    let mut i: usize = 0;
    while i < segments.len()
        invariant
            i <= segments.len(),
            text@ == joined(texts_of(segments@).take(i as int)),
        decreases segments.len() - i,
    {
        let ghost all = texts_of(segments@);
        proof {
            reveal_strlit(" ");
            assert(all.take(i + 1).drop_last() == all.take(i as int));
            assert(all.take(i + 1).last() == segments[i as int]@);
        }
        if i > 0 {
            text.append(" ");
            assert(" "@ == seq![' ']);
        }
        text.append(segments[i].as_str());
        i = i + 1;
    }
    proof {
        let all = texts_of(segments@);
        assert(all.take(segments.len() as int) == all);
    }
    text
}

/// The values of the JSON strings whose texts between the quotes are
/// `raw`, one for one.
pub open spec fn values_of(raw: Seq<Seq<char>>) -> Seq<Seq<char>> {
    Seq::new(raw.len(), |i: int| json_string_value(raw[i]))
}

/// The values of what the pattern found: each text with its escapes
/// replaced by the characters that they stand for, in the same order.
pub fn unescape_all(found: &Vec<String>) -> (values: Vec<String>)
    ensures
        texts_of(values@) == values_of(texts_of(found@)),
{
    let mut values: Vec<String> = Vec::new();
    let mut i: usize = 0;
    while i < found.len()
        invariant
            i <= found.len(),
            values@.len() == i,
            forall|k: int| 0 <= k < i ==> (#[trigger] values@[k])@ == json_string_value(found@[k]@),
        decreases found.len() - i,
    {
        values.push(unescape(found[i].as_str()));
        i = i + 1;
    }
    assert(texts_of(values@) =~= values_of(texts_of(found@)));
    values
}

/// What to make of a body in which the pattern finds nothing.
#[derive(Debug, Clone, Copy, PartialEq, Eq, Structural)]
pub enum NoMatch {
    /// The article text is empty.
    Empty,
    /// The extraction fails with `ClientError::MissMatch`.
    Reject,
}

/// The article text made of what the pattern found: the segments joined
/// with single spaces, or, where nothing was found and the policy rejects
/// that, the failure `MissMatch`.
pub fn text_of_segments(found: &Vec<String>, policy: NoMatch) -> (r: Result<String, ClientError>)
    ensures
        found@.len() == 0 && policy == NoMatch::Reject ==> r == Err::<String, ClientError>(
            ClientError::MissMatch,
        ),
        !(found@.len() == 0 && policy == NoMatch::Reject) ==> (r matches Ok(text) && text@
            == joined(texts_of(found@))),
{
    if found.len() == 0 && policy == NoMatch::Reject {
        Err(ClientError::MissMatch)
    } else {
        Ok(join_segments(found))
    }
}

} // verus!
