//! What is known of a pane once its branch was looked up.

use crate::text::chars_of;
use vstd::prelude::*;

verus! {

/// The working directory of a pane and, where it lies in a git repository,
/// the branch checked out there.
#[derive(Debug, Clone)]
pub struct PaneContext {
    /// The working directory, absolute or relative to the home directory.
    pub cwd: String,
    /// The branch; `None` outside a repository.
    pub branch: Option<String>,
}

/// Where the piece of `path` after its last `/` starts: 0 where `path` has
/// no `/`, its length where it ends in one.
pub open spec fn piece_start(path: Seq<char>) -> int
    decreases path.len(),
{
    if path.len() == 0 || path.last() == '/' {
        path.len() as int
    } else {
        piece_start(path.drop_last())
    }
}

/// [`piece_start`] is the one position in `path` that follows a `/`, or
/// begins the path, and has no `/` after it.
pub proof fn lemma_piece_start(path: Seq<char>)
    ensures
        0 <= piece_start(path) <= path.len(),
        piece_start(path) > 0 ==> path[piece_start(path) - 1] == '/',
        forall|k: int| piece_start(path) <= k < path.len() ==> path[k] != '/',
    decreases path.len(),
{
    if path.len() == 0 || path.last() == '/' {
    } else {
        lemma_piece_start(path.drop_last());
        assert forall|k: int| piece_start(path) <= k < path.len() implies path[k] != '/' by {
            if k < path.len() - 1 {
                assert(path.drop_last()[k] == path[k]);
            }
        }
    }
}

/// The name that a path ends in, as its last component.
///
/// Pieces are separated by `/`. Going from the end, empty pieces (a trailing
/// or doubled `/`) and pieces that are a single `.` are passed over. The
/// first other piece is the name, unless it is `..`, which names nothing.
/// A path without such a piece, like `/` or the empty path, has no name.
pub open spec fn file_name(path: Seq<char>) -> Option<Seq<char>>
    decreases path.len(),
{
    let start = piece_start(path);
    let piece = path.skip(start);
    if piece.len() == 0 || piece == seq!['.'] {
        if start == 0 {
            None
        } else {
            proof {
                lemma_piece_start(path);
            }
            file_name(path.take(start - 1))
        }
    } else if piece == seq!['.', '.'] {
        None
    } else {
        Some(piece)
    }
}

/// The folder shown for a working directory: its [`file_name`], or all of
/// it where it has none.
pub open spec fn folder_of(cwd: Seq<char>) -> Seq<char> {
    match file_name(cwd) {
        Some(name) => name,
        None => cwd,
    }
}

/// A position with the two properties of [`lemma_piece_start`] is
/// [`piece_start`].
proof fn lemma_piece_start_is(path: Seq<char>, start: int)
    requires
        0 <= start <= path.len(),
        start > 0 ==> path[start - 1] == '/',
        forall|k: int| start <= k < path.len() ==> path[k] != '/',
    ensures
        piece_start(path) == start,
    decreases path.len(),
{
    if path.len() == 0 || path.last() == '/' {
    } else {
        let shorter = path.drop_last();
        assert forall|k: int| start <= k < shorter.len() implies shorter[k] != '/' by {
            assert(shorter[k] == path[k]);
        }
        lemma_piece_start_is(shorter, start);
    }
}

impl PaneContext {
    /// The branch as a sequence of characters.
    pub open spec fn branch_view(&self) -> Option<Seq<char>> {
        match self.branch {
            Some(b) => Some(b@),
            None => None,
        }
    }

    /// The folder shown for this pane: the last component of its working
    /// directory, or the whole of it where there is none, as for `/`.
    pub fn folder_name(&self) -> (name: &str)
        ensures
            name@ == folder_of(self.cwd@),
    {
        let cwd = self.cwd.as_str();
        let chars = chars_of(cwd);
        let mut end: usize = chars.len();
        assert(chars@.take(end as int) =~= chars@);
        loop
            invariant
                end <= chars.len(),
                chars@ == self.cwd@,
                cwd@ == self.cwd@,
                file_name(chars@) == file_name(chars@.take(end as int)),
            decreases end,
        {
            let ghost head = chars@.take(end as int);
            let mut start: usize = end;
            while start > 0 && chars[start - 1] != '/'
                invariant
                    start <= end <= chars.len(),
                    forall|k: int| start <= k < end ==> chars@[k] != '/',
                decreases start,
            {
                start -= 1;
            }
            proof {
                lemma_piece_start_is(head, start as int);
                assert(head.skip(start as int) =~= chars@.subrange(start as int, end as int));
                if start > 0 {
                    assert(head.take(start - 1) =~= chars@.take(start - 1));
                }
            }
            let len: usize = end - start;
            let ghost piece = chars@.subrange(start as int, end as int);
            if len == 0 || (len == 1 && chars[start] == '.') {
                proof {
                    if len == 1 {
                        assert(piece =~= seq!['.']);
                    }
                }
                if start == 0 {
                    return cwd;
                }
                end = start - 1;
            } else if len == 2 && chars[start] == '.' && chars[start + 1] == '.' {
                assert(piece =~= seq!['.', '.']);
                return cwd;
            } else {
                proof {
                    if len == 1 {
                        assert(piece[0] != '.');
                    } else if len == 2 {
                        assert(piece[0] != '.' || piece[1] != '.');
                    }
                }
                return cwd.substring_char(start, end);
            }
        }
    }
}

} // verus!
