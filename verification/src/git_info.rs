//! The state of a repository, reduced to a branch name and five counts.
//!
//! Reading the repository is the caller's business. What it read arrives
//! here as a [`RepoSnapshot`] of plain values.

use crate::text::strip_prefix;
use vstd::prelude::*;

verus! {

/// The flags of one entry of the status listing, as far as the counts read
/// them. The `index_` flags compare the index with the last commit, the
/// `wt_` flags compare the working tree with the index.
#[derive(Clone, Copy, Debug, PartialEq, Eq, Structural)]
pub struct FileStatus {
    pub index_new: bool,
    pub index_modified: bool,
    pub index_deleted: bool,
    pub index_renamed: bool,
    pub index_typechange: bool,
    pub wt_new: bool,
    pub wt_modified: bool,
    pub wt_deleted: bool,
}

impl FileStatus {
    /// The index holds a change of this path that is not committed yet.
    pub open spec fn staged(self) -> bool {
        self.index_new || self.index_modified || self.index_deleted || self.index_renamed
            || self.index_typechange
    }

    /// The working tree changed or lost this path since it was last added.
    pub open spec fn modified(self) -> bool {
        self.wt_modified || self.wt_deleted
    }

    /// The path is in the working tree and unknown to the index.
    pub open spec fn untracked(self) -> bool {
        self.wt_new
    }

    /// Tests [`Self::staged`].
    pub fn is_staged(&self) -> (r: bool)
        ensures
            r == self.staged(),
    {
        self.index_new || self.index_modified || self.index_deleted || self.index_renamed
            || self.index_typechange
    }

    /// Tests [`Self::modified`].
    pub fn is_modified(&self) -> (r: bool)
        ensures
            r == self.modified(),
    {
        self.wt_modified || self.wt_deleted
    }

    /// Tests [`Self::untracked`].
    pub fn is_untracked(&self) -> (r: bool)
        ensures
            r == self.untracked(),
    {
        self.wt_new
    }
}

/// The number of staged entries in a status listing.
pub open spec fn staged_count(statuses: Seq<FileStatus>) -> nat {
    statuses.filter(|f: FileStatus| f.staged()).len()
}

/// The number of entries with unstaged changes in a status listing.
pub open spec fn modified_count(statuses: Seq<FileStatus>) -> nat {
    statuses.filter(|f: FileStatus| f.modified()).len()
}

/// The number of untracked entries in a status listing.
pub open spec fn untracked_count(statuses: Seq<FileStatus>) -> nat {
    statuses.filter(|f: FileStatus| f.untracked()).len()
}

proof fn lemma_filter_push<A>(s: Seq<A>, x: A, pred: spec_fn(A) -> bool)
    ensures
        s.push(x).filter(pred) == if pred(x) {
            s.filter(pred).push(x)
        } else {
            s.filter(pred)
        },
{
    reveal(Seq::filter);
    assert(s.push(x).drop_last() =~= s);
}

proof fn lemma_filter_len_remove<A>(s: Seq<A>, j: int, pred: spec_fn(A) -> bool)
    requires
        0 <= j < s.len(),
    ensures
        s.filter(pred).len() == s.remove(j).filter(pred).len() + if pred(s[j]) {
            1nat
        } else {
            0nat
        },
{
    let left = s.take(j);
    let right = s.skip(j + 1);
    assert(s =~= left.push(s[j]) + right);
    assert(s.remove(j) =~= left + right);
    Seq::filter_distributes_over_add(left.push(s[j]), right, pred);
    Seq::filter_distributes_over_add(left, right, pred);
    lemma_filter_push(left, s[j], pred);
}

proof fn lemma_filter_len_ignores_order<A>(a: Seq<A>, b: Seq<A>, pred: spec_fn(A) -> bool)
    requires
        a.to_multiset() == b.to_multiset(),
    ensures
        a.filter(pred).len() == b.filter(pred).len(),
    decreases a.len(),
{
    a.to_multiset_ensures();
    b.to_multiset_ensures();
    if a.len() == 0 {
        assert(a =~= b);
    } else {
        // The last entry of `a` stands somewhere in `b`: take it out of both.
        let last = a.len() - 1;
        assert(a.contains(a[last]));
        assert(b.to_multiset().count(a[last]) > 0);
        assert(b.contains(a[last]));
        let j = choose|j: int| 0 <= j < b.len() && b[j] == a[last];
        assert(a.remove(last).to_multiset() =~= b.remove(j).to_multiset());
        lemma_filter_len_ignores_order(a.remove(last), b.remove(j), pred);
        lemma_filter_len_remove(a, last, pred);
        lemma_filter_len_remove(b, j, pred);
    }
}

/// The three counts do not depend on the order in which a listing names
/// its entries: two listings of the same entries count alike.
pub proof fn lemma_counts_ignore_order(a: Seq<FileStatus>, b: Seq<FileStatus>)
    requires
        a.to_multiset() == b.to_multiset(),
    ensures
        staged_count(a) == staged_count(b),
        modified_count(a) == modified_count(b),
        untracked_count(a) == untracked_count(b),
{
    lemma_filter_len_ignores_order(a, b, |f: FileStatus| f.staged());
    lemma_filter_len_ignores_order(a, b, |f: FileStatus| f.modified());
    lemma_filter_len_ignores_order(a, b, |f: FileStatus| f.untracked());
}

/// A listing counts what it holds, entry by entry: one more entry adds 1 to
/// each count that the entry falls under, and an empty listing counts nothing.
pub proof fn lemma_counts_by_entry(statuses: Seq<FileStatus>, entry: FileStatus)
    ensures
        staged_count(Seq::empty()) == 0,
        modified_count(Seq::empty()) == 0,
        untracked_count(Seq::empty()) == 0,
        staged_count(statuses.push(entry)) == staged_count(statuses) + if entry.staged() {
            1nat
        } else {
            0nat
        },
        modified_count(statuses.push(entry)) == modified_count(statuses) + if entry.modified() {
            1nat
        } else {
            0nat
        },
        untracked_count(statuses.push(entry)) == untracked_count(statuses) + if entry.untracked() {
            1nat
        } else {
            0nat
        },
{
    reveal(Seq::filter);
    lemma_filter_push(statuses, entry, |f: FileStatus| f.staged());
    lemma_filter_push(statuses, entry, |f: FileStatus| f.modified());
    lemma_filter_push(statuses, entry, |f: FileStatus| f.untracked());
}

/// Counts the staged, the modified and the untracked entries, in this
/// order. One entry may count in more than one of the three.
pub fn count_statuses(statuses: &Vec<FileStatus>) -> (r: (usize, usize, usize))
    ensures
        r.0 == staged_count(statuses@),
        r.1 == modified_count(statuses@),
        r.2 == untracked_count(statuses@),
{
    let mut staged: usize = 0;
    let mut modified: usize = 0;
    let mut untracked: usize = 0;
    let mut i: usize = 0;
    proof {
        reveal(Seq::filter);
    }
    while i < statuses.len()
        invariant
            i <= statuses@.len(),
            staged == staged_count(statuses@.take(i as int)),
            modified == modified_count(statuses@.take(i as int)),
            untracked == untracked_count(statuses@.take(i as int)),
            staged <= i,
            modified <= i,
            untracked <= i,
        decreases statuses@.len() - i,
    {
        let entry = &statuses[i];
        proof {
            let seen = statuses@.take(i as int);
            assert(statuses@.take(i + 1) =~= seen.push(statuses@[i as int]));
            lemma_filter_push(seen, statuses@[i as int], |f: FileStatus| f.staged());
            lemma_filter_push(seen, statuses@[i as int], |f: FileStatus| f.modified());
            lemma_filter_push(seen, statuses@[i as int], |f: FileStatus| f.untracked());
        }
        if entry.is_staged() {
            staged = staged + 1;
        }
        if entry.is_modified() {
            modified = modified + 1;
        }
        if entry.is_untracked() {
            untracked = untracked + 1;
        }
        i = i + 1;
    }
    assert(statuses@.take(i as int) =~= statuses@);
    (staged, modified, untracked)
}

/// Lines that one diff adds and removes.
#[derive(Clone, Copy, Debug, PartialEq, Eq, Structural)]
pub struct DiffStat {
    pub insertions: usize,
    pub deletions: usize,
}

/// The lines that a diff adds; none where the diff could not be made.
pub open spec fn insertions_of(diff: Option<DiffStat>) -> nat {
    match diff {
        Some(d) => d.insertions as nat,
        None => 0,
    }
}

/// The lines that a diff removes; none where the diff could not be made.
pub open spec fn deletions_of(diff: Option<DiffStat>) -> nat {
    match diff {
        Some(d) => d.deletions as nat,
        None => 0,
    }
}

/// The prefix that a symbolic reference to a local branch begins with.
pub open spec fn heads_prefix() -> Seq<char> {
    "refs/heads/"@
}

/// The name shown where no branch can be told.
pub open spec fn unknown_branch() -> Seq<char> {
    "unknown"@
}

/// The branch to show: the short name of the resolved head if there is one;
/// else what follows `refs/heads/` in the symbolic target of `HEAD`; else
/// `unknown`.
pub open spec fn branch_name(
    head_shorthand: Option<Seq<char>>,
    head_symbolic_target: Option<Seq<char>>,
) -> Seq<char> {
    match head_shorthand {
        Some(name) => name,
        None => match head_symbolic_target {
            Some(target) => if heads_prefix().is_prefix_of(target) {
                target.skip(heads_prefix().len() as int)
            } else {
                unknown_branch()
            },
            None => unknown_branch(),
        },
    }
}

/// Picks the branch name as [`branch_name`] says.
pub fn resolve_branch(head_shorthand: Option<String>, head_symbolic_target: Option<String>) -> (r:
    String)
    ensures
        r@ == branch_name(head_shorthand.deep_view(), head_symbolic_target.deep_view()),
{
    match head_shorthand {
        Some(name) => name,
        None => {
            let stripped = match head_symbolic_target {
                Some(target) => strip_prefix(target.as_str(), "refs/heads/"),
                None => None,
            };
            match stripped {
                Some(name) => name,
                None => String::from_str("unknown"),
            }
        },
    }
}

/// What was read of a repository that encloses the directory.
#[derive(Debug)]
pub struct RepoSnapshot {
    /// Short name of the reference that `HEAD` resolves to, if it resolves.
    pub head_shorthand: Option<String>,
    /// Target of the reference `HEAD`, if that reference is symbolic.
    pub head_symbolic_target: Option<String>,
    /// The status listing, untracked files included and ignored ones left
    /// out; `None` if it could not be made.
    pub statuses: Option<Vec<FileStatus>>,
    /// Diff from the tree of the last commit to the index, if it could be made.
    pub staged_diff: Option<DiffStat>,
    /// Diff from the index to the working tree, if it could be made.
    pub worktree_diff: Option<DiffStat>,
}

/// Why a repository has no state to show.
#[derive(Clone, Copy, Debug, PartialEq, Eq, Structural)]
pub enum GitError {
    /// No repository encloses the directory.
    NotARepository,
    /// The repository would not list its status.
    StatusUnavailable,
}

impl GitError {
    pub open spec fn message_text(self) -> Seq<char> {
        match self {
            GitError::NotARepository => "Not a git repository"@,
            GitError::StatusUnavailable => "Failed to get git status"@,
        }
    }

    /// The error in words.
    pub fn message(&self) -> (r: &'static str)
        ensures
            r@ == self.message_text(),
    {
        match self {
            GitError::NotARepository => "Not a git repository",
            GitError::StatusUnavailable => "Failed to get git status",
        }
    }
}

/// Branch and counts of a repository.
#[derive(Debug)]
pub struct GitInfo {
    pub branch: String,
    pub files_staged: usize,
    pub files_modified: usize,
    pub files_untracked: usize,
    pub lines_added: usize,
    pub lines_removed: usize,
}

/// A [`GitInfo`] as mathematics sees it.
pub struct GitInfoView {
    pub branch: Seq<char>,
    pub files_staged: nat,
    pub files_modified: nat,
    pub files_untracked: nat,
    pub lines_added: nat,
    pub lines_removed: nat,
}

impl GitInfoView {
    /// The state shown where none could be read: branch `unknown`, nothing counted.
    pub open spec fn unknown() -> GitInfoView {
        GitInfoView {
            branch: unknown_branch(),
            files_staged: 0,
            files_modified: 0,
            files_untracked: 0,
            lines_added: 0,
            lines_removed: 0,
        }
    }
}

impl View for GitInfo {
    type V = GitInfoView;

    open spec fn view(&self) -> GitInfoView {
        GitInfoView {
            branch: self.branch@,
            files_staged: self.files_staged as nat,
            files_modified: self.files_modified as nat,
            files_untracked: self.files_untracked as nat,
            lines_added: self.lines_added as nat,
            lines_removed: self.lines_removed as nat,
        }
    }
}

impl Default for GitInfo {
    fn default() -> (r: Self)
        ensures
            r@ == GitInfoView::unknown(),
    {
        GitInfo {
            branch: String::from_str("unknown"),
            files_staged: 0,
            files_modified: 0,
            files_untracked: 0,
            lines_added: 0,
            lines_removed: 0,
        }
    }
}

impl GitInfo {
    /// What a probe amounts to. No repository is an error, and so is a
    /// repository without a status listing. Otherwise the branch is
    /// [`branch_name`], the three file counts are taken over the listing, and
    /// the line counts add up the two diffs, a missing diff counting nothing.
    pub open spec fn summary(probe: Option<RepoSnapshot>) -> Result<GitInfoView, GitError> {
        match probe {
            None => Err(GitError::NotARepository),
            Some(snapshot) => match snapshot.statuses {
                None => Err(GitError::StatusUnavailable),
                Some(statuses) => Ok(
                    GitInfoView {
                        branch: branch_name(
                            snapshot.head_shorthand.deep_view(),
                            snapshot.head_symbolic_target.deep_view(),
                        ),
                        files_staged: staged_count(statuses@),
                        files_modified: modified_count(statuses@),
                        files_untracked: untracked_count(statuses@),
                        lines_added: insertions_of(snapshot.staged_diff) + insertions_of(
                            snapshot.worktree_diff,
                        ),
                        lines_removed: deletions_of(snapshot.staged_diff) + deletions_of(
                            snapshot.worktree_diff,
                        ),
                    },
                ),
            },
        }
    }

    /// The probes whose line totals can be held: every probe but one that
    /// has a status listing and two diffs too long to add up in a `usize`.
    pub open spec fn countable(probe: Option<RepoSnapshot>) -> bool {
        probe matches Some(snapshot) ==> snapshot.statuses is Some ==> {
            &&& insertions_of(snapshot.staged_diff) + insertions_of(snapshot.worktree_diff)
                <= usize::MAX
            &&& deletions_of(snapshot.staged_diff) + deletions_of(snapshot.worktree_diff)
                <= usize::MAX
        }
    }

    /// Tests [`Self::countable`].
    pub fn is_countable(probe: &Option<RepoSnapshot>) -> (r: bool)
        ensures
            r == Self::countable(*probe),
    {
        let snapshot = match probe {
            Some(snapshot) => snapshot,
            None => {
                return true;
            },
        };
        if snapshot.statuses.is_none() {
            return true;
        }
        let (added, removed) = match snapshot.staged_diff {
            Some(diff) => (diff.insertions, diff.deletions),
            None => (0, 0),
        };
        match snapshot.worktree_diff {
            Some(diff) => added.checked_add(diff.insertions).is_some() && removed.checked_add(
                diff.deletions,
            ).is_some(),
            None => true,
        }
    }

    /// The state of the probed repository, or why there is none.
    pub fn try_new(probe: Option<RepoSnapshot>) -> (r: Result<GitInfo, GitError>)
        requires
            Self::countable(probe),
        ensures
            match r {
                Ok(info) => Self::summary(probe) == Ok::<GitInfoView, GitError>(info@),
                Err(e) => Self::summary(probe) == Err::<GitInfoView, GitError>(e),
            },
    {
        let snapshot = match probe {
            Some(snapshot) => snapshot,
            None => {
                return Err(GitError::NotARepository);
            },
        };
        let statuses = match snapshot.statuses {
            Some(statuses) => statuses,
            None => {
                return Err(GitError::StatusUnavailable);
            },
        };
        let branch = resolve_branch(snapshot.head_shorthand, snapshot.head_symbolic_target);
        let (files_staged, files_modified, files_untracked) = count_statuses(&statuses);
        let mut lines_added: usize = 0;
        let mut lines_removed: usize = 0;
        if let Some(diff) = snapshot.staged_diff {
            lines_added = diff.insertions;
            lines_removed = diff.deletions;
        }
        if let Some(diff) = snapshot.worktree_diff {
            lines_added = lines_added + diff.insertions;
            lines_removed = lines_removed + diff.deletions;
        }
        Ok(GitInfo { branch, files_staged, files_modified, files_untracked, lines_added, lines_removed })
    }

    /// The state to show for a probe: that of [`Self::try_new`], and the
    /// unknown state wherever that fails.
    pub fn extract(probe: Option<RepoSnapshot>) -> (r: GitInfo)
        requires
            Self::countable(probe),
        ensures
            r@ == match Self::summary(probe) {
                Ok(view) => view,
                Err(_) => GitInfoView::unknown(),
            },
            probe is None ==> r@ == GitInfoView::unknown(),
    {
        match Self::try_new(probe) {
            Ok(info) => info,
            Err(_) => GitInfo::default(),
        }
    }
}

} // verus!
