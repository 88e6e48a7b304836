//! Path strings.
//!
//! On the wire a canonical path appears in its string form: a leading slash
//! and the segments joined by slashes, as in `/state/scalar/value/number`.
//! Parsing and rendering are delegated to the `pathlink` crate; this module
//! states their behaviour exactly, and proves that a rendered path parses
//! back to the same segments.

use std::str::FromStr;

use vstd::prelude::*;

verus! {

/// A character that a path segment may never contain.
pub open spec fn is_reserved_char(c: char) -> bool {
    c == '/' || c == '~' || c == '$' || c == '`' || c == '&' || c == '|' || c == '=' || c == '^'
        || c == '{' || c == '}' || c == '<' || c == '>' || c == '\'' || c == '"' || c == '?'
        || c == ':' || c == '@' || c == '#' || c == '(' || c == ')'
}

/// An ASCII control character.
pub open spec fn is_control_char(c: char) -> bool {
    (c as u32) < 0x20
}

/// A Unicode whitespace character.
pub open spec fn is_space_char(c: char) -> bool {
    c == '\t' || c == '\n' || c == '\u{b}' || c == '\u{c}' || c == '\r' || c == ' '
        || c == '\u{85}' || c == '\u{a0}' || c == '\u{1680}' || (c as u32 >= 0x2000 && c as u32
        <= 0x200a) || c == '\u{2028}' || c == '\u{2029}' || c == '\u{202f}' || c == '\u{205f}'
        || c == '\u{3000}'
}

/// Two dots in a row somewhere in the segment.
pub open spec fn has_dot_dot(s: Seq<char>) -> bool {
    exists|i: int| 0 <= i < s.len() - 1 && #[trigger] s[i] == '.' && s[i + 1] == '.'
}

/// A well-formed path segment: non-empty, free of control characters,
/// reserved characters, whitespace, and of two dots in a row.
pub open spec fn valid_segment(s: Seq<char>) -> bool {
    s.len() > 0 && (forall|i: int|
        0 <= i < s.len() ==> !is_control_char(#[trigger] s[i]) && !is_reserved_char(s[i])
            && !is_space_char(s[i])) && !has_dot_dot(s)
}

/// Split a character sequence on every slash.  Splitting the empty sequence
/// gives one empty piece, as splitting a string on a separator does.
pub open spec fn split_path(s: Seq<char>) -> Seq<Seq<char>>
    decreases s.len(),
{
    if s.len() == 0 {
        seq![Seq::<char>::empty()]
    } else if s[0] == '/' {
        seq![Seq::<char>::empty()] + split_path(s.drop_first())
    } else {
        let rest = split_path(s.drop_first());
        seq![seq![s[0]] + rest[0]] + rest.drop_first()
    }
}

/// What parsing a path string yields, if anything.  A single slash is the
/// empty path; a string with a leading slash and no trailing slash splits
/// into segments, each of which must be well formed; a bare string is a
/// single segment; everything else is rejected.
pub open spec fn parse_path_spec(s: Seq<char>) -> Option<Seq<Seq<char>>> {
    if s == seq!['/'] {
        Some(Seq::empty())
    } else if s.len() > 0 && s.last() == '/' {
        None
    } else if s.len() > 0 && s.first() == '/' {
        let segs = split_path(s.drop_first());
        if forall|i: int| 0 <= i < segs.len() ==> valid_segment(#[trigger] segs[i]) {
            Some(segs)
        } else {
            None
        }
    } else {
        if valid_segment(s) {
            Some(seq![s])
        } else {
            None
        }
    }
}

/// The segments joined by slashes, without the leading slash.
pub open spec fn join_segments(segs: Seq<Seq<char>>) -> Seq<char>
    decreases segs.len(),
{
    if segs.len() == 0 {
        Seq::empty()
    } else if segs.len() == 1 {
        segs[0]
    } else {
        segs[0] + seq!['/'] + join_segments(segs.drop_first())
    }
}

/// The string form of a path: a leading slash, then the segments joined by
/// slashes.  The empty path renders as a single slash.
pub open spec fn path_string_spec(segs: Seq<Seq<char>>) -> Seq<char> {
    seq!['/'] + join_segments(segs)
}

/// The message of the parse error that a malformed path string provokes.
pub uninterp spec fn path_parse_error_of(s: Seq<char>) -> Seq<char>;

/// Parse a path string into its segments.
///
/// Relies on `pathlink::PathBuf`'s `FromStr`: a single slash is the empty
/// path; a string with a leading slash splits on slashes into segments, each
/// validated as a `pathlink::Id` (non-empty, no control characters, none of
/// pathlink's reserved character patterns, no whitespace); a trailing slash
/// is rejected; a bare string is one such segment.  The error carries the
/// parser's own message.
#[verifier::external_body]
pub(crate) fn parse_path(s: &str) -> (r: Result<Vec<String>, String>)
    ensures
        match r {
            Ok(segments) => parse_path_spec(s@) == Some(segments.deep_view()),
            Err(m) => parse_path_spec(s@) is None && m@ == path_parse_error_of(s@),
        },
{
    match s.parse::<pathlink::PathBuf>() {
        Ok(path) => Ok(path.into_inner().into_iter().map(|seg| seg.to_string()).collect()),
        Err(err) => Err(err.to_string()),
    }
}

/// Render a path as its string form.
///
/// Relies on `pathlink::PathBuf`'s `Display`: a leading slash, then the
/// segments joined by slashes; and on `pathlink::Id`'s `FromStr`, which
/// accepts every well-formed segment.
#[verifier::external_body]
pub(crate) fn render_path(segments: &Vec<String>) -> (r: String)
    requires
        forall|i: int|
            0 <= i < segments.deep_view().len() ==> valid_segment(
                #[trigger] segments.deep_view()[i],
            ),
    ensures
        r@ == path_string_spec(segments.deep_view()),
{
    let path: pathlink::PathBuf = segments
        .iter()
        .map(|seg| pathlink::PathSegment::from_str(seg).expect("well-formed path segment"))
        .collect();
    path.to_string()
}

/// Splitting a slash-free sequence gives that sequence back as one piece.
proof fn lemma_split_no_slash(s: Seq<char>)
    requires
        forall|i: int| 0 <= i < s.len() ==> s[i] != '/',
    ensures
        split_path(s) == seq![s],
    decreases s.len(),
{
    if s.len() == 0 {
        assert(s =~= Seq::<char>::empty());
        assert(split_path(s) =~= seq![s]);
    } else {
        lemma_split_no_slash(s.drop_first());
        let rest = split_path(s.drop_first());
        assert(rest == seq![s.drop_first()]);
        assert(seq![s[0]] + rest[0] =~= s);
        assert(rest.drop_first() =~= Seq::<Seq<char>>::empty());
        assert(split_path(s) =~= seq![s]);
    }
}

/// Splitting `a`, a slash, then `b` gives `a` as the first piece and the
/// pieces of `b` after it, provided `a` itself is slash-free.
proof fn lemma_split_around_slash(a: Seq<char>, b: Seq<char>)
    requires
        forall|i: int| 0 <= i < a.len() ==> a[i] != '/',
    ensures
        split_path(a + seq!['/'] + b) == seq![a] + split_path(b),
    decreases a.len(),
{
    let s = a + seq!['/'] + b;
    if a.len() == 0 {
        assert(a =~= Seq::<char>::empty());
        assert(s[0] == '/');
        assert(s.drop_first() =~= b);
        assert(split_path(s) =~= seq![a] + split_path(b));
    } else {
        assert(s[0] == a[0]);
        assert(s[0] != '/');
        assert(s.drop_first() =~= a.drop_first() + seq!['/'] + b);
        lemma_split_around_slash(a.drop_first(), b);
        let rest = split_path(s.drop_first());
        assert(rest == seq![a.drop_first()] + split_path(b));
        assert(rest[0] == a.drop_first());
        assert(seq![s[0]] + rest[0] =~= a);
        assert(rest.drop_first() =~= split_path(b));
        assert(split_path(s) =~= seq![a] + split_path(b));
    }
}

/// Joined well-formed segments split back into the same segments, and the
/// joined form neither is empty nor ends with a slash.
proof fn lemma_split_join(segs: Seq<Seq<char>>)
    requires
        segs.len() >= 1,
        forall|i: int| 0 <= i < segs.len() ==> valid_segment(#[trigger] segs[i]),
    ensures
        split_path(join_segments(segs)) == segs,
        join_segments(segs).len() >= 1,
        join_segments(segs).last() != '/',
    decreases segs.len(),
{
    let j = join_segments(segs);
    if segs.len() == 1 {
        lemma_split_no_slash(segs[0]);
        assert(split_path(j) =~= segs);
    } else {
        lemma_split_join(segs.drop_first());
        lemma_split_around_slash(segs[0], join_segments(segs.drop_first()));
        assert(split_path(j) =~= seq![segs[0]] + split_path(join_segments(segs.drop_first())));
        assert(split_path(j) =~= segs);
        assert(j.last() == join_segments(segs.drop_first()).last()) by {
            assert(j.len() == segs[0].len() + 1 + join_segments(segs.drop_first()).len());
        }
    }
}

/// A rendered path parses back to exactly the segments it was rendered
/// from, provided there is at least one segment and each is well formed.
pub proof fn lemma_parse_of_rendered(segs: Seq<Seq<char>>)
    requires
        segs.len() >= 1,
        forall|i: int| 0 <= i < segs.len() ==> valid_segment(#[trigger] segs[i]),
    ensures
        parse_path_spec(path_string_spec(segs)) == Some(segs),
{
    let s = path_string_spec(segs);
    lemma_split_join(segs);
    assert(s.len() >= 2);
    assert(s != seq!['/']);
    assert(s.last() == join_segments(segs).last());
    assert(s.first() == '/');
    assert(s.drop_first() =~= join_segments(segs));
}

} // verus!
