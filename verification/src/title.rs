//! Recovery of a working directory from the title of a pane.
//!
//! Shells put the directory into the title in more than one way, such as
//! `bash: /home/me` or `me@host:/home/me`. The title is one line of free
//! text, so this is a heuristic with a fixed order of attempts.

use crate::text::{
    is_blank, is_whitespace, last_index_of, last_occurrence, lemma_blank_trims_to_nothing,
    lemma_last_occurrence, lemma_last_occurrence_is, lemma_trim_start_stops,
    lemma_trimmed_unchanged, occurs_at, trim, trim_end, trim_start, trimmed,
};
use vstd::prelude::*;

verus! {

/// Whether `s` begins like a path: with `/` or with `~`.
pub open spec fn is_path_start(s: Seq<char>) -> bool {
    s.len() > 0 && (s.first() == '/' || s.first() == '~')
}

/// The two-character marker `": "`.
pub open spec fn colon_space() -> Seq<char> {
    seq![':', ' ']
}

/// The one-character marker `":"`.
pub open spec fn colon() -> Seq<char> {
    seq![':']
}

/// The path that follows the last occurrence of `marker` in `title`: what
/// stands after it, trimmed, if that begins like a path.
pub open spec fn path_after(title: Seq<char>, marker: Seq<char>) -> Option<Seq<char>> {
    match last_occurrence(title, marker) {
        Some(i) => {
            let rest = trimmed(title.skip(i + marker.len()));
            if is_path_start(rest) {
                Some(rest)
            } else {
                None
            }
        },
        None => None,
    }
}

/// The working directory that a title gives away.
///
/// The title is trimmed; an empty one gives nothing. Then, in this order:
/// the path after the last `": "`; the whole title, if it begins like a
/// path; the path after the last `":"`.
pub open spec fn extracted_cwd(title: Seq<char>) -> Option<Seq<char>> {
    let t = trimmed(title);
    if t.len() == 0 {
        None
    } else if path_after(t, colon_space()) is Some {
        path_after(t, colon_space())
    } else if is_path_start(t) {
        Some(t)
    } else {
        path_after(t, colon())
    }
}

/// The marker `": "` takes precedence: a title that ends in `": "` and a
/// path gives that path, whatever stands before the marker, be it a path
/// itself. The path here has no `": "` in it and no whitespace at its end.
pub proof fn lemma_marked_path_wins(lead: Seq<char>, path: Seq<char>)
    requires
        is_path_start(path),
        !is_whitespace(path.last()),
        forall|j: int| !occurs_at(path, colon_space(), j),
    ensures
        extracted_cwd(lead + colon_space() + path) == Some(path),
{
    let marker = colon_space();
    let tail = marker + path;
    let title = lead + marker + path;
    let kept = trim_start(lead);
    let t = kept + tail;
    let n = kept.len() as int;
    assert(title =~= lead + tail);
    lemma_trim_start_stops(lead, tail);
    assert(t.last() == path.last());
    assert(trim_end(t) == t);
    assert(trimmed(title) == t);
    assert(t.subrange(n, n + 2) =~= marker);
    assert forall|j: int| n < j implies !occurs_at(t, marker, j) by {
        if occurs_at(t, marker, j) {
            if j == n + 1 {
                assert(t.subrange(j, j + 2)[0] == t[n + 1]);
            } else {
                assert(t.subrange(j, j + 2) =~= path.subrange(j - n - 2, j - n));
                assert(occurs_at(path, marker, j - n - 2));
            }
        }
    }
    lemma_last_occurrence_is(t, marker, n);
    assert(t.skip(n + 2) =~= path);
    lemma_trimmed_unchanged(path);
}

/// Decides [`is_path_start`].
fn begins_like_path(s: &str) -> (yes: bool)
    ensures
        yes == is_path_start(s@),
{
    if s.is_empty() {
        false
    } else {
        let first = s.get_char(0);
        first == '/' || first == '~'
    }
}

/// Computes [`path_after`], as a slice of `title`.
fn find_path_after<'a>(title: &'a str, marker: &str) -> (path: Option<&'a str>)
    ensures
        match path {
            Some(p) => path_after(title@, marker@) == Some(p@),
            None => path_after(title@, marker@) is None,
        },
{
    match last_index_of(title, marker) {
        Some(i) => {
            let len: usize = title.unicode_len();
            let marker_len: usize = marker.unicode_len();
            proof {
                lemma_last_occurrence(title@, marker@);
            }
            let from: usize = i + marker_len;
            let rest = trim(title.substring_char(from, len));
            assert(title@.subrange(from as int, title@.len() as int) =~= title@.skip(from as int));
            if begins_like_path(rest) {
                Some(rest)
            } else {
                None
            }
        },
        None => None,
    }
}

/// Recovers the working directory from the title of a pane, if the title
/// shows one.
pub fn extract_cwd_from_title(title: &str) -> (cwd: Option<String>)
    ensures
        match cwd {
            Some(p) => extracted_cwd(title@) == Some(p@),
            None => extracted_cwd(title@) is None,
        },
        is_blank(title@) ==> cwd is None,
{
    proof {
        reveal_strlit(": ");
        reveal_strlit(":");
        assert(": "@ =~= colon_space());
        assert(":"@ =~= colon());
        if is_blank(title@) {
            lemma_blank_trims_to_nothing(title@);
        }
    }
    let title = trim(title);
    if title.is_empty() {
        return None;
    }
    if let Some(path) = find_path_after(title, ": ") {
        return Some(path.to_owned());
    }
    if begins_like_path(title) {
        return Some(title.to_owned());
    }
    if let Some(path) = find_path_after(title, ":") {
        return Some(path.to_owned());
    }
    None
}

} // verus!
