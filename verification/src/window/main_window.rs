//! The main window: what it shows of the repository that changed last.
use vstd::prelude::*;

use crate::repo::{name, opt_text, spec_name};
use crate::text::{chars_of, piece_end, split_on, split_starts};

verus! {

/// The last piece of a `/`-separated path that is neither empty nor `.`.
pub open spec fn last_component(pieces: Seq<Seq<char>>) -> Option<Seq<char>>
    decreases pieces.len(),
{
    if pieces.len() == 0 {
        None
    } else if pieces.last().len() == 0 || pieces.last() == "."@ {
        last_component(pieces.drop_last())
    } else {
        Some(pieces.last())
    }
}

/// The final component of a path, as `Path::file_name` gives it on Unix: the last
/// component that is neither empty nor `.`, unless it is `..`; `None` when there is none.
pub open spec fn spec_file_name(path: Seq<char>) -> Option<Seq<char>> {
    match last_component(split_on(path, '/')) {
        Some(c) => if c == ".."@ {
            None
        } else {
            Some(c)
        },
        None => None,
    }
}

/// What the main window shows as the repository's name: the name from its remote URL
/// when there is one, else the name of its folder.
pub open spec fn spec_repo_label(remote_url: Option<Seq<char>>, path: Seq<char>) -> Option<Seq<char>> {
    match remote_url {
        Some(url) => match spec_name(url) {
            Some(n) => Some(n),
            None => spec_file_name(path),
        },
        None => spec_file_name(path),
    }
}

/// The final component of `path`: `/home/me/code/app/` gives `app`, `/` gives `None`.
pub fn file_name(path: &str) -> (res: Option<String>)
    ensures
        opt_text(res) == spec_file_name(path@),
{
    let chars = chars_of(path);
    let starts = split_starts(&chars, '/');
    proof {
        reveal_strlit(".");
        reveal_strlit("..");
        assert(path@.take(path@.len() as int) =~= path@);
    }
    let ghost pieces = split_on(path@, '/');
    let n = chars.len();
    let mut k = starts.len();
    assert(pieces.take(k as int) =~= pieces);
    while k > 0
        invariant
            chars@ == path@,
            n == chars.len(),
            k <= starts.len(),
            crate::text::piece_starts(path@, '/', n as int, starts@),
            pieces == split_on(path@, '/'),
            path@.take(n as int) == path@,
            starts@.len() == pieces.len(),
            last_component(pieces) == last_component(pieces.take(k as int)),
        decreases k,
    {
        proof {
            reveal_strlit(".");
            reveal_strlit("..");
        }
        let ghost before = pieces.take(k as int);
        k = k - 1;
        let start = starts[k];
        let end = if k + 1 < starts.len() {
            starts[k + 1] - 1
        } else {
            n
        };
        assert(pieces[k as int] == path@.subrange(start as int, piece_end(starts@, k as int, n as int)));
        assert(before.drop_last() =~= pieces.take(k as int));
        assert(before.last() == pieces[k as int]);
        let len = end - start;
        let is_dot = len == 1 && chars[start] == '.';
        if len == 0 || is_dot {
            if is_dot {
                assert(pieces[k as int] =~= "."@);
            }
        } else {
            if len == 1 {
                assert(pieces[k as int][0] != '.');
            }
            let is_parent = len == 2 && chars[start] == '.' && chars[start + 1] == '.';
            if is_parent {
                assert(pieces[k as int] =~= ".."@);
                return None;
            }
            if len == 2 {
                assert(pieces[k as int][0] != '.' || pieces[k as int][1] != '.');
            }
            return Some(String::from_str(path.substring_char(start, end)));
        }
    }
    None
}

/// The name under which the main window shows a repository: the `owner/repo` name of
/// its remote URL, or failing that the name of the folder at `path`.
pub fn repo_label(remote_url: Option<&str>, path: &str) -> (label: Option<String>)
    ensures
        opt_text(label) == spec_repo_label(
            match remote_url {
                Some(u) => Some(u@),
                None => None,
            },
            path@,
        ),
{
    match remote_url {
        Some(url) => match name(url) {
            Some(n) => Some(n),
            None => file_name(path),
        },
        None => file_name(path),
    }
}

/// The final component of `dir/name`, for a plain name, is that name.
pub proof fn lemma_file_name_of_child(dir: Seq<char>, name: Seq<char>)
    requires
        name.len() > 0,
        !name.contains('/'),
        name != "."@,
        name != ".."@,
    ensures
        spec_file_name(dir.push('/') + name) == Some(name),
{
    crate::text::lemma_split_last_piece(dir, '/', name);
    let pieces = split_on(dir.push('/') + name, '/');
    assert(pieces.last() == name);
}

} // verus!
