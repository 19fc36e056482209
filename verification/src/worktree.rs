//! Worktree management for category repositories: the names a worktree gets,
//! the `git` argument lists that create, remove and prune it, and the reading of
//! `git worktree list --porcelain` output.

use vstd::prelude::*;
use crate::text::{has_prefix, lines_of, split_lines, strip_prefix, texts};

verus! {

/// The branch a named worktree is created on: `feat/<name>`.
pub open spec fn feature_branch_of(name: Seq<char>) -> Seq<char> {
    "feat/"@ + name
}

/// The directory name of a worktree under `.wt/`: `<category>--<name>`.
pub open spec fn worktree_dir_name_of(category: Seq<char>, name: Seq<char>) -> Seq<char> {
    category + "--"@ + name
}

/// The branch a named worktree is created on.
pub fn feature_branch(name: &str) -> (r: String)
    ensures
        r@ == feature_branch_of(name@),
{
    let mut out = "feat/".to_owned();
    out.append(name);
    out
}

/// The directory name of the worktree for `category` and `name`.
pub fn worktree_dir_name(category: &str, name: &str) -> (r: String)
    ensures
        r@ == worktree_dir_name_of(category@, name@),
{
    let mut out = category.to_owned();
    out.append("--");
    out.append(name);
    out
}

/// The arguments of `git` that add the worktree `wt_dir` to `repo`: detached at
/// `at` when given, else on a new branch `feat/<name>`.
pub open spec fn add_args_of(repo: Seq<char>, wt_dir: Seq<char>, name: Seq<char>, at: Option<Seq<char>>) -> Seq<Seq<char>> {
    seq!["-C"@, repo, "worktree"@, "add"@] + match at {
        Some(sha) => seq!["--detach"@, wt_dir, sha],
        None => seq!["-b"@, feature_branch_of(name), wt_dir],
    }
}

/// The arguments of `git` that add a worktree.
pub fn worktree_add_args(repo: &str, wt_dir: &str, name: &str, at: Option<&str>) -> (r: Vec<String>)
    ensures
        texts(r@) == add_args_of(repo@, wt_dir@, name@, match at { Some(s) => Some(s@), None => None }),
{
    let mut args: Vec<String> = Vec::new();
    args.push("-C".to_owned());
    args.push(repo.to_owned());
    args.push("worktree".to_owned());
    args.push("add".to_owned());
    match at {
        Some(sha) => {
            args.push("--detach".to_owned());
            args.push(wt_dir.to_owned());
            args.push(sha.to_owned());
        },
        None => {
            args.push("-b".to_owned());
            args.push(feature_branch(name));
            args.push(wt_dir.to_owned());
        },
    }
    assert(texts(args@) =~= add_args_of(repo@, wt_dir@, name@, match at { Some(s) => Some(s@), None => None }));
    args
}

/// The arguments of `git` that remove the worktree `wt_dir` from `repo`.
pub fn worktree_remove_args(repo: &str, wt_dir: &str) -> (r: Vec<String>)
    ensures
        texts(r@) == seq!["-C"@, repo@, "worktree"@, "remove"@, wt_dir@],
{
    let mut args: Vec<String> = Vec::new();
    args.push("-C".to_owned());
    args.push(repo.to_owned());
    args.push("worktree".to_owned());
    args.push("remove".to_owned());
    args.push(wt_dir.to_owned());
    assert(texts(args@) =~= seq!["-C"@, repo@, "worktree"@, "remove"@, wt_dir@]);
    args
}

/// The arguments of `git` that prune stale worktree records of `repo`.
pub fn worktree_prune_args(repo: &str) -> (r: Vec<String>)
    ensures
        texts(r@) == seq!["-C"@, repo@, "worktree"@, "prune"@],
{
    let mut args: Vec<String> = Vec::new();
    args.push("-C".to_owned());
    args.push(repo.to_owned());
    args.push("worktree".to_owned());
    args.push("prune".to_owned());
    assert(texts(args@) =~= seq!["-C"@, repo@, "worktree"@, "prune"@]);
    args
}

/// The arguments of `git` that delete the branch `feat/<name>` of `repo` only when
/// it is merged (`-d`, never `-D`).
pub fn branch_delete_args(repo: &str, name: &str) -> (r: Vec<String>)
    ensures
        texts(r@) == seq!["-C"@, repo@, "branch"@, "-d"@, feature_branch_of(name@)],
{
    let mut args: Vec<String> = Vec::new();
    args.push("-C".to_owned());
    args.push(repo.to_owned());
    args.push("branch".to_owned());
    args.push("-d".to_owned());
    args.push(feature_branch(name));
    assert(texts(args@) =~= seq!["-C"@, repo@, "branch"@, "-d"@, feature_branch_of(name@)]);
    args
}

/// The paths named by the `worktree <path>` lines among `lines`, in order.
pub open spec fn worktree_entries(lines: Seq<Seq<char>>) -> Seq<Seq<char>>
    decreases lines.len(),
{
    if lines.len() == 0 {
        Seq::empty()
    } else {
        let rest = worktree_entries(lines.drop_last());
        let l = lines.last();
        if has_prefix(l, "worktree "@) {
            rest.push(l.subrange("worktree "@.len() as int, l.len() as int))
        } else {
            rest
        }
    }
}

/// The linked worktrees listed in porcelain output: every entry but the first,
/// which is the main checkout; none when there is at most one entry.
pub open spec fn linked_worktrees_of(porcelain: Seq<char>) -> Seq<Seq<char>> {
    let e = worktree_entries(lines_of(porcelain));
    if e.len() <= 1 {
        Seq::empty()
    } else {
        e.drop_first()
    }
}

/// Reads the linked worktrees out of `git worktree list --porcelain` output.
pub fn linked_worktrees(porcelain: &str) -> (r: Vec<String>)
    ensures
        texts(r@) == linked_worktrees_of(porcelain@),
{
    let lines = split_lines(porcelain);
    let ghost ls = lines_of(porcelain@);
    let mut entries: Vec<String> = Vec::new();
    let mut i: usize = 0;
    while i < lines.len()
        invariant
            texts(lines@) == ls,
            i <= lines@.len(),
            texts(entries@) == worktree_entries(ls.take(i as int)),
        decreases lines.len() - i,
    {
        assert(ls.take(i + 1).drop_last() =~= ls.take(i as int));
        assert(ls.take(i + 1).last() == lines@[i as int]@);
        let ghost before = texts(entries@);
        match strip_prefix(lines[i].as_str(), "worktree ") {
            Some(path) => {
                entries.push(path);
                assert(texts(entries@) =~= before.push(path@));
            },
            None => {},
        }
        i = i + 1;
    }
    assert(ls.take(lines@.len() as int) =~= ls);
    let mut out: Vec<String> = Vec::new();
    if entries.len() <= 1 {
        assert(texts(out@) =~= Seq::<Seq<char>>::empty());
        return out;
    }
    let mut k: usize = 1;
    while k < entries.len()
        invariant
            1 <= k <= entries@.len(),
            texts(out@) =~= texts(entries@).subrange(1, k as int),
        decreases entries.len() - k,
    {
        let ghost before = texts(out@);
        let item = entries[k].clone();
        assert(item@ == texts(entries@)[k as int]);
        out.push(item);
        assert(texts(out@) =~= before.push(item@));
        k = k + 1;
        assert(texts(out@) =~= texts(entries@).subrange(1, k as int));
    }
    assert(texts(entries@).drop_first() =~= texts(entries@).subrange(1, entries@.len() as int));
    out
}

/// Of the `worktree <path>` entries in porcelain output, exactly the first (the
/// main checkout) is dropped: with n >= 2 entries the listing has n - 1 paths,
/// entries 2..n in order; with fewer there is nothing to list.
pub proof fn listing_drops_only_main_checkout(porcelain: Seq<char>)
    ensures
        worktree_entries(lines_of(porcelain)).len() >= 2 ==> {
            &&& linked_worktrees_of(porcelain).len() == worktree_entries(lines_of(porcelain)).len() - 1
            &&& forall|i: int| 0 <= i < linked_worktrees_of(porcelain).len()
                ==> #[trigger] linked_worktrees_of(porcelain)[i] == worktree_entries(lines_of(porcelain))[i + 1]
        },
        worktree_entries(lines_of(porcelain)).len() < 2 ==> linked_worktrees_of(porcelain).len() == 0,
{
}

/// Every `worktree <path>` line contributes its path, in order: a line that
/// starts with `worktree ` adds exactly one entry, any other line adds none.
pub proof fn entries_follow_worktree_lines(lines: Seq<Seq<char>>, line: Seq<char>)
    ensures
        has_prefix(line, "worktree "@) ==> worktree_entries(lines.push(line)) == worktree_entries(lines).push(
            line.subrange(9, line.len() as int),
        ),
        !has_prefix(line, "worktree "@) ==> worktree_entries(lines.push(line)) == worktree_entries(lines),
{
    assert(lines.push(line).drop_last() =~= lines);
    reveal_strlit("worktree ");
}

} // verus!
