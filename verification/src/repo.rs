//! What the app learns from a git repository: its name, its branch, and which
//! repository changed last.
use vstd::prelude::*;

use std::collections::hash_map::RandomState;
use std::hash::Hash;

use priority_queue::PriorityQueue;

use crate::text::{
    chars_of, ends_with, find_from, has_char, matches_at, occurs_at, piece_end,
    split_on, split_starts, starts_with, trim_end_all,
};

verus! {

/// The suffix that `name` strips from a repository name.
pub open spec fn git_suffix() -> Seq<char> {
    ".git"@
}

/// The scheme prefix that marks a web URL.
pub open spec fn http_prefix() -> Seq<char> {
    "http"@
}

/// The prefix of a symbolic reference to a local branch.
pub open spec fn heads_prefix() -> Seq<char> {
    "refs/heads/"@
}

/// The `owner/repo` name that a remote URL designates:
/// - a web URL (`http...`) with at least five `/`-separated pieces gives its fourth and
///   fifth pieces, joined by `/`, with trailing `.git`s removed from the fifth;
/// - otherwise a URL holding both `@` and `:` (the scp form `user@host:path`) gives
///   its second `:`-separated piece, with trailing `.git`s removed;
/// - any other URL gives nothing.
pub open spec fn spec_name(url: Seq<char>) -> Option<Seq<char>> {
    let parts = split_on(url, '/');
    if starts_with(url, http_prefix()) && parts.len() >= 5 {
        Some(parts[3] + "/"@ + trim_end_all(parts[4], git_suffix()))
    } else if url.contains('@') && url.contains(':') {
        let pieces = split_on(url, ':');
        if pieces.len() > 1 {
            Some(trim_end_all(pieces[1], git_suffix()))
        } else {
            None
        }
    } else {
        None
    }
}

/// The branch that a symbolic `HEAD` target names: the target with its first
/// `refs/heads/` removed (the whole target when it holds none).
pub open spec fn spec_branch_name(target: Seq<char>) -> Seq<char> {
    match find_from(target, heads_prefix(), 0) {
        Some(i) => target.take(i as int) + target.skip((i + heads_prefix().len()) as int),
        None => target,
    }
}

/// A text as the value of an `Option<String>`.
pub open spec fn opt_text(o: Option<String>) -> Option<Seq<char>> {
    match o {
        Some(s) => Some(s@),
        None => None,
    }
}

/// The end of `chars[start..end]` once every trailing copy of `pat` is removed.
fn trim_end_matching(chars: &Vec<char>, start: usize, end: usize, pat: &Vec<char>) -> (e: usize)
    requires
        start <= end <= chars.len(),
        pat.len() > 0,
    ensures
        start <= e <= end,
        chars@.subrange(start as int, e as int) == trim_end_all(
            chars@.subrange(start as int, end as int),
            pat@,
        ),
{
    let mut e = end;
    while e - start >= pat.len() && matches_at(chars, pat, e - pat.len())
        invariant
            start <= e <= end <= chars.len(),
            pat.len() > 0,
            trim_end_all(chars@.subrange(start as int, end as int), pat@) == trim_end_all(
                chars@.subrange(start as int, e as int),
                pat@,
            ),
        decreases e,
    {
        let ghost sub = chars@.subrange(start as int, e as int);
        assert(sub.subrange(sub.len() - pat.len(), sub.len() as int) =~= chars@.subrange(
            e - pat.len(),
            e as int,
        ));
        assert(sub.subrange(0, sub.len() - pat.len()) =~= chars@.subrange(
            start as int,
            e - pat.len(),
        ));
        e = e - pat.len();
    }
    proof {
        let sub = chars@.subrange(start as int, e as int);
        if pat.len() <= sub.len() {
            assert(sub.subrange(sub.len() - pat.len(), sub.len() as int) =~= chars@.subrange(
                e - pat.len(),
                e as int,
            ));
        }
    }
    e
}

/// The text of `chars[start..end]` taken from `s`, whose characters `chars` holds.
fn piece_text(s: &str, chars: &Vec<char>, start: usize, end: usize) -> (r: String)
    requires
        chars@ == s@,
        start <= end <= chars.len(),
    ensures
        r@ == s@.subrange(start as int, end as int),
{
    String::from_str(s.substring_char(start, end))
}

/// The `owner/repo` name of a repository, read from the URL of its `origin` remote.
///
/// `https://github.com/owner/repo.git` and `git@github.com:owner/repo.git` both give
/// `owner/repo`; a URL of neither form gives `None`.
pub fn name(url: &str) -> (res: Option<String>)
    ensures
        opt_text(res) == spec_name(url@),
{
    let chars = chars_of(url);
    let git = chars_of(".git");
    let http = chars_of("http");
    proof {
        reveal_strlit(".git");
        reveal_strlit("http");
        reveal_strlit("/");
    }
    let slashes = split_starts(&chars, '/');
    let ghost parts = split_on(url@, '/');
    assert(url@.take(url@.len() as int) =~= url@);
    if matches_at(&chars, &http, 0) && slashes.len() >= 5 {
        let owner_end = slashes[4] - 1;
        let repo_end = if slashes.len() > 5 {
            slashes[5] - 1
        } else {
            chars.len()
        };
        assert(parts[3] == url@.subrange(slashes@[3] as int, piece_end(slashes@, 3, url@.len() as int)));
        assert(parts[4] == url@.subrange(slashes@[4] as int, piece_end(slashes@, 4, url@.len() as int)));
        assert(slashes@[3] < slashes@[4]);
        let repo_trimmed = trim_end_matching(&chars, slashes[4], repo_end, &git);
        let mut out = piece_text(url, &chars, slashes[3], owner_end);
        out.append("/");
        let repo = piece_text(url, &chars, slashes[4], repo_trimmed);
        out.append(repo.as_str());
        return Some(out);
    }
    if has_char(&chars, '@') && has_char(&chars, ':') {
        let colons = split_starts(&chars, ':');
        if colons.len() > 1 {
            let end = if colons.len() > 2 {
                colons[2] - 1
            } else {
                chars.len()
            };
            assert(split_on(url@, ':')[1] == url@.subrange(
                colons@[1] as int,
                piece_end(colons@, 1, url@.len() as int),
            ));
            let trimmed = trim_end_matching(&chars, colons[1], end, &git);
            return Some(piece_text(url, &chars, colons[1], trimmed));
        }
        return None;
    }
    None
}

/// The local branch that a symbolic `HEAD` target points at.
///
/// `refs/heads/main` gives `main`; a target without `refs/heads/` comes back whole.
pub fn branch_name(target: &str) -> (res: String)
    ensures
        res@ == spec_branch_name(target@),
{
    let chars = chars_of(target);
    let heads = chars_of("refs/heads/");
    proof {
        reveal_strlit("refs/heads/");
    }
    let n = chars.len();
    let p = heads.len();
    let mut i: usize = 0;
    while p <= n && i <= n - p
        invariant
            chars@ == target@,
            heads@ == heads_prefix(),
            n == chars.len(),
            p == heads.len(),
            p == 11,
            i <= n,
            find_from(target@, heads_prefix(), 0) == find_from(target@, heads_prefix(), i as nat),
        decreases n + 1 - i,
    {
        if matches_at(&chars, &heads, i) {
            let mut out = String::from_str(target.substring_char(0, i));
            out.append(target.substring_char(i + p, n));
            assert(target@.subrange(i + p, n as int) =~= target@.skip(i + p));
            assert(target@.subrange(0, i as int) =~= target@.take(i as int));
            return out;
        }
        i = i + 1;
    }
    String::from_str(target)
}

/// The priority queue of the `priority-queue` crate, which hands out the item of greatest
/// priority.
#[verifier::external_type_specification]
#[verifier::external_body]
#[verifier::reject_recursive_types(I)]
#[verifier::reject_recursive_types(P)]
#[verifier::reject_recursive_types(H)]
pub struct ExPriorityQueue<I: Hash + Eq, P: Ord, H>(PriorityQueue<I, P, H>);

/// A queue of candidate repositories: each item is an index into a list of changes, each
/// priority the time of that change.
pub type ChangeQueue = PriorityQueue<usize, i128, RandomState>;

/// What a queue of candidates holds: for each item, its priority.
pub uninterp spec fn queue_contents(queue: ChangeQueue) -> Map<usize, i128>;

/// `PriorityQueue::new`: a queue that holds nothing.
#[verifier::external_body]
fn queue_new() -> (fresh: ChangeQueue)
    ensures
        queue_contents(fresh).dom() == Set::<usize>::empty(),
{
    PriorityQueue::new()
}

/// `PriorityQueue::push`: afterwards `item` has `priority`, every other item keeps its
/// own; the item's former priority comes back, if it had one.
#[verifier::external_body]
fn queue_push(queue: &mut ChangeQueue, item: usize, priority: i128) -> (previous: Option<i128>)
    ensures
        queue_contents(*final(queue)) == queue_contents(*old(queue)).insert(item, priority),
        previous == (if queue_contents(*old(queue)).dom().contains(item) {
            Some(queue_contents(*old(queue))[item])
        } else {
            None
        }),
{
    queue.push(item, priority)
}

/// `PriorityQueue::peek`: an item of greatest priority, with that priority, or `None`
/// when the queue is empty. Which of several items of equal priority comes back is not
/// stated.
#[verifier::external_body]
fn queue_peek(queue: &ChangeQueue) -> (top: Option<(usize, i128)>)
    ensures
        top is None <==> queue_contents(*queue).dom() == Set::<usize>::empty(),
        top matches Some((item, priority)) ==> {
            &&& queue_contents(*queue).dom().contains(item)
            &&& queue_contents(*queue)[item] == priority
            &&& forall|other: usize| #[trigger] queue_contents(*queue).dom().contains(other)
                ==> queue_contents(*queue)[other] <= priority
        },
{
    queue.peek().map(|(item, priority)| (*item, *priority))
}

/// The latest of the modification times of a repository's changed files; `None` stands
/// for a file whose time could not be read, and is skipped. No readable time gives `None`.
pub fn latest_change(times: &Vec<Option<i128>>) -> (latest: Option<i128>)
    ensures
        latest is None <==> forall|i: int| 0 <= i < times@.len() ==> times@[i] is None,
        latest matches Some(t) ==> {
            &&& exists|i: int| 0 <= i < times@.len() && times@[i] == Some(t)
            &&& forall|i: int| #![trigger times@[i]] 0 <= i < times@.len() && times@[i] is Some
                ==> times@[i]->0 <= t
        },
{
    let mut latest: Option<i128> = None;
    let mut i: usize = 0;
    while i < times.len()
        invariant
            i <= times.len(),
            latest is None <==> forall|j: int| 0 <= j < i ==> times@[j] is None,
            latest matches Some(t) ==> {
                &&& exists|j: int| 0 <= j < i && times@[j] == Some(t)
                &&& forall|j: int| #![trigger times@[j]] 0 <= j < i && times@[j] is Some
                    ==> times@[j]->0 <= t
            },
        decreases times.len() - i,
    {
        match times[i] {
            None => {},
            Some(time) => {
                let newer = match latest {
                    None => true,
                    Some(t) => time > t,
                };
                if newer {
                    latest = Some(time);
                }
            },
        }
        i = i + 1;
    }
    latest
}

/// The repository that changed last: among `changes`, pairs of a repository's path and
/// the time of its latest change, the path of one with the greatest time; `None` when
/// there are no changes.
pub fn find_latest(changes: &Vec<(String, i128)>) -> (latest: Option<String>)
    ensures
        latest is None <==> changes@.len() == 0,
        latest matches Some(path) ==> exists|i: int| #![trigger changes@[i]]
            0 <= i < changes@.len() && changes@[i].0@ == path@
            && forall|j: int| 0 <= j < changes@.len() ==> changes@[j].1 <= changes@[i].1,
{
    let mut queue = queue_new();
    let mut i: usize = 0;
    while i < changes.len()
        invariant
            i <= changes.len(),
            queue_contents(queue).dom() =~= Set::new(|k: usize| k < i),
            forall|k: usize| k < i ==> #[trigger] queue_contents(queue)[k] == changes@[k as int].1,
        decreases changes.len() - i,
    {
        let (_, time) = &changes[i];
        queue_push(&mut queue, i, *time);
        i = i + 1;
    }
    proof {
        if changes@.len() > 0 {
            assert(queue_contents(queue).dom().contains(0usize));
            assert(!Set::<usize>::empty().contains(0usize));
        } else {
            assert(queue_contents(queue).dom() =~= Set::<usize>::empty());
        }
    }
    match queue_peek(&queue) {
        None => None,
        Some((index, _)) => {
            let (path, _) = &changes[index];
            let found = path.clone();
            assert forall|j: int| 0 <= j < changes@.len() implies changes@[j].1 <= changes@[index as int].1 by {
                assert(queue_contents(queue).dom().contains(j as usize));
            }
            Some(found)
        },
    }
}

/// A name found in a remote URL never ends in `.git`.
pub proof fn lemma_name_has_no_git_suffix(url: Seq<char>)
    ensures
        spec_name(url) matches Some(n) ==> !ends_with(n, git_suffix()),
{
    reveal_strlit(".git");
    reveal_strlit("/");
    reveal_strlit("http");
    let g = git_suffix();
    let parts = split_on(url, '/');
    if starts_with(url, http_prefix()) && parts.len() >= 5 {
        let a = parts[3];
        let b = trim_end_all(parts[4], g);
        crate::text::lemma_trimmed_has_no_suffix(parts[4], g);
        let n = a + "/"@ + b;
        if ends_with(n, g) {
            if b.len() >= 4 {
                assert(n.subrange(n.len() - 4, n.len() as int) =~= b.subrange(b.len() - 4, b.len() as int));
            } else {
                let k = 3 - b.len();
                assert(n.subrange(n.len() - 4, n.len() as int)[k] == n[a.len() as int]);
                assert(n[a.len() as int] == '/');
            }
        }
    } else if url.contains('@') && url.contains(':') {
        let pieces = split_on(url, ':');
        if pieces.len() > 1 {
            crate::text::lemma_trimmed_has_no_suffix(pieces[1], g);
        }
    }
}

/// The target of a local branch's reference gives back the branch.
pub proof fn lemma_branch_of_local_ref(branch: Seq<char>)
    ensures
        spec_branch_name(heads_prefix() + branch) == branch,
{
    let t = heads_prefix() + branch;
    assert(t.subrange(0, heads_prefix().len() as int) =~= heads_prefix());
    assert(occurs_at(t, heads_prefix(), 0));
    assert(find_from(t, heads_prefix(), 0) == Some(0nat));
    assert(t.take(0) + t.skip(heads_prefix().len() as int) =~= branch);
}

/// A web URL with at least five `/`-separated pieces is read in the web form, even when it
/// also holds `@` and `:` (as `https://user@host/owner/repo.git` does): the fourth piece,
/// `/`, and the fifth piece without its trailing `.git`s.
pub proof fn lemma_web_form_first(url: Seq<char>)
    requires
        url.len() >= 4,
        url.subrange(0, 4) == "http"@,
        split_on(url, '/').len() >= 5,
    ensures
        spec_name(url) == Some(split_on(url, '/')[3] + "/"@ + trim_end_all(split_on(url, '/')[4], ".git"@)),
{
}

} // verus!
