//! The snapshot store as a mathematical value, and what each operation
//! makes of it.

use crate::digest::is_hex_digit;
use vstd::prelude::*;

verus! {

/// The name of the branch that a fresh store starts on.
pub const DEFAULT_BRANCH: &'static str = "main";

/// What stands in for a commit id where there is no commit yet.
pub const NO_COMMIT: &'static str = "none";

/// The query that names the current commit.
pub const HEAD_QUERY: &'static str = "HEAD";

/// The number of characters of a commit id.
pub const COMMIT_ID_LEN: usize = 40;

/// Why an operation on the store fails.
#[derive(Clone, Copy, Debug, PartialEq, Eq, Structural)]
pub enum Error {
    /// There is no store at the given place.
    NotInitialized,
    /// The store's file could not be read or written.
    FileOperationError,
    /// The store's file does not hold a valid store.
    InvalidFormat,
    /// A commit was asked for while HEAD is detached.
    DetachedHEAD,
    /// A branch of that name exists already.
    BranchAlreadyExists,
    /// No commit answers the query.
    CommitNotFound,
    /// More than one commit answers the query.
    AmbiguousQuery,
    /// The new commit's id is that of an earlier commit.
    IdCollision,
    /// There is no branch of that name.
    BranchNotFound,
    /// The branch is the one that HEAD is attached to.
    CurrentBranch,
}

/// What the user is told of an error.
pub open spec fn error_text(e: Error) -> Seq<char> {
    match e {
        Error::NotInitialized => "Not initialized"@,
        Error::FileOperationError => "Cannot operate to commits file"@,
        Error::InvalidFormat => "Commits files is invalid format"@,
        Error::DetachedHEAD => "Cannot commit with detached HEAD"@,
        Error::BranchAlreadyExists => "Specified branch name already exists"@,
        Error::CommitNotFound => "Specified commit was not found"@,
        Error::AmbiguousQuery => "Specified commit id matches more than one commits"@,
        Error::IdCollision => "A commit with the same id exists already"@,
        Error::BranchNotFound => "Specified branch was not found"@,
        Error::CurrentBranch => "Cannot delete the current branch"@,
    }
}

impl Error {
    /// What the user is told of the error.
    pub fn message(&self) -> (text: String)
        ensures
            text@ == error_text(*self),
    {
        match self {
            Error::NotInitialized => crate::text::copy_text("Not initialized"),
            Error::FileOperationError => crate::text::copy_text("Cannot operate to commits file"),
            Error::InvalidFormat => crate::text::copy_text("Commits files is invalid format"),
            Error::DetachedHEAD => crate::text::copy_text("Cannot commit with detached HEAD"),
            Error::BranchAlreadyExists => crate::text::copy_text(
                "Specified branch name already exists",
            ),
            Error::CommitNotFound => crate::text::copy_text("Specified commit was not found"),
            Error::AmbiguousQuery => crate::text::copy_text(
                "Specified commit id matches more than one commits",
            ),
            Error::IdCollision => crate::text::copy_text("A commit with the same id exists already"),
            Error::BranchNotFound => crate::text::copy_text("Specified branch was not found"),
            Error::CurrentBranch => crate::text::copy_text("Cannot delete the current branch"),
        }
    }
}

/// The value of a commit.
pub struct CommitView {
    pub id: Seq<char>,
    pub parent_id: Option<Seq<char>>,
    pub date: Seq<char>,
    pub message: Option<Seq<char>>,
}

/// The value of a branch.
pub struct BranchView {
    pub name: Seq<char>,
    pub commit_id: Seq<char>,
}

/// The value of HEAD.
pub struct HeadView {
    pub branch_name: Seq<char>,
    pub commit_id: Seq<char>,
    pub detached: bool,
}

/// The value of a store.
pub struct Store {
    /// The commits, oldest first.
    pub commits: Seq<CommitView>,
    pub head: HeadView,
    pub branches: Seq<BranchView>,
}

/// What reading the store's file came to.
pub enum LoadedView {
    /// There is no file.
    Missing,
    /// The file could not be read.
    Unreadable,
    /// The file's text is not a store.
    Malformed,
    /// The file holds this document.
    Document(Store),
}

/// The index of the first of `keys`, at or after `from`, that equals
/// `key`, or the number of keys where there is none.
pub open spec fn position(keys: Seq<Seq<char>>, key: Seq<char>, from: int) -> int
    decreases keys.len() - from,
{
    if from >= keys.len() {
        keys.len() as int
    } else if keys[from] == key {
        from
    } else {
        position(keys, key, from + 1)
    }
}

/// The index of the first of `keys`, at or after `from`, that begins with
/// `prefix`, or the number of keys where there is none.
pub open spec fn first_match(keys: Seq<Seq<char>>, prefix: Seq<char>, from: int) -> int
    decreases keys.len() - from,
{
    if from >= keys.len() {
        keys.len() as int
    } else if prefix.is_prefix_of(keys[from]) {
        from
    } else {
        first_match(keys, prefix, from + 1)
    }
}

/// The ids of `commits`, in order.
pub open spec fn commit_ids(commits: Seq<CommitView>) -> Seq<Seq<char>> {
    Seq::new(commits.len(), |i: int| commits[i].id)
}

/// The names of `branches`, in order.
pub open spec fn branch_names(branches: Seq<BranchView>) -> Seq<Seq<char>> {
    Seq::new(branches.len(), |i: int| branches[i].name)
}

/// Whether `id` has the form of a commit id: forty lowercase hexadecimal
/// digits.
pub open spec fn is_commit_id(id: Seq<char>) -> bool {
    id.len() == COMMIT_ID_LEN && forall|i: int| 0 <= i < id.len() ==> is_hex_digit(#[trigger] id[i])
}

/// Whether one of `commits` has the id `id`.
pub open spec fn has_commit(commits: Seq<CommitView>, id: Seq<char>) -> bool {
    position(commit_ids(commits), id, 0) < commits.len()
}

/// Whether one of `branches` has the name `name`.
pub open spec fn has_branch(branches: Seq<BranchView>, name: Seq<char>) -> bool {
    position(branch_names(branches), name, 0) < branches.len()
}

/// The commit id of the branch `name`.
pub open spec fn branch_commit(branches: Seq<BranchView>, name: Seq<char>) -> Seq<char> {
    branches[position(branch_names(branches), name, 0)].commit_id
}

/// Whether `id` is the sentinel or the id of one of `commits`.
pub open spec fn refers(commits: Seq<CommitView>, id: Seq<char>) -> bool {
    id == NO_COMMIT@ || has_commit(commits, id)
}

/// Whether every commit id has the form of one and occurs once, and every
/// parent is an earlier commit.
pub open spec fn commits_wf(commits: Seq<CommitView>) -> bool {
    &&& forall|i: int|
        0 <= i < commits.len() ==> is_commit_id((#[trigger] commits[i]).id) && position(
            commit_ids(commits),
            commits[i].id,
            0,
        ) == i
    &&& forall|i: int|
        0 <= i < commits.len() ==> ((#[trigger] commits[i]).parent_id matches Some(p) ==> position(
            commit_ids(commits),
            p,
            0,
        ) < i)
}

/// Whether every branch name occurs once and every branch refers to a
/// commit or holds the sentinel.
pub open spec fn branches_wf(commits: Seq<CommitView>, branches: Seq<BranchView>) -> bool {
    forall|b: int|
        0 <= b < branches.len() ==> refers(commits, (#[trigger] branches[b]).commit_id)
            && position(branch_names(branches), branches[b].name, 0) == b
}

/// Whether HEAD refers to a commit or holds the sentinel and, if attached,
/// names a branch and holds that branch's commit id.
pub open spec fn head_wf(s: Store) -> bool {
    &&& refers(s.commits, s.head.commit_id)
    &&& !s.head.detached ==> has_branch(s.branches, s.head.branch_name) && branch_commit(
        s.branches,
        s.head.branch_name,
    ) == s.head.commit_id
}

/// Whether the store is well formed:
/// every commit id has the form of one and occurs once; a parent is an
/// earlier commit; branch names occur once; every branch and HEAD refer to
/// a commit or hold the sentinel; and an attached HEAD names a branch and
/// holds that branch's commit id.
pub open spec fn store_wf(s: Store) -> bool {
    &&& commits_wf(s.commits)
    &&& branches_wf(s.commits, s.branches)
    &&& head_wf(s)
}

/// `position` lands between its starting point and the end, on an
/// occurrence of `key` if it stops early, and passes no occurrence of it.
pub proof fn lemma_position(keys: Seq<Seq<char>>, key: Seq<char>, from: int)
    requires
        0 <= from <= keys.len(),
    ensures
        from <= position(keys, key, from) <= keys.len(),
        position(keys, key, from) < keys.len() ==> keys[position(keys, key, from)] == key,
        forall|j: int| from <= j < position(keys, key, from) ==> #[trigger] keys[j] != key,
    decreases keys.len() - from,
{
    if from < keys.len() && keys[from] != key {
        lemma_position(keys, key, from + 1);
    }
}

/// `first_match` lands between its starting point and the end, on a key
/// that begins with `prefix` if it stops early, and passes none that does.
pub proof fn lemma_first_match(keys: Seq<Seq<char>>, prefix: Seq<char>, from: int)
    requires
        0 <= from <= keys.len(),
    ensures
        from <= first_match(keys, prefix, from) <= keys.len(),
        first_match(keys, prefix, from) < keys.len() ==> prefix.is_prefix_of(
            keys[first_match(keys, prefix, from)],
        ),
        forall|j: int|
            from <= j < first_match(keys, prefix, from) ==> !prefix.is_prefix_of(#[trigger] keys[j]),
    decreases keys.len() - from,
{
    if from < keys.len() && !prefix.is_prefix_of(keys[from]) {
        lemma_first_match(keys, prefix, from + 1);
    }
}

/// The store right after its creation: no commit, the default branch
/// without a commit, and HEAD on that branch.
pub open spec fn initial_store() -> Store {
    Store {
        commits: seq![],
        head: HeadView { branch_name: DEFAULT_BRANCH@, commit_id: NO_COMMIT@, detached: false },
        branches: seq![BranchView { name: DEFAULT_BRANCH@, commit_id: NO_COMMIT@ }],
    }
}

/// What opening a store makes of what was read: the document, if it is
/// well formed.
pub open spec fn open_result(loaded: LoadedView) -> Result<Store, Error> {
    match loaded {
        LoadedView::Missing => Err(Error::NotInitialized),
        LoadedView::Unreadable => Err(Error::FileOperationError),
        LoadedView::Malformed => Err(Error::InvalidFormat),
        LoadedView::Document(s) => if store_wf(s) {
            Ok(s)
        } else {
            Err(Error::InvalidFormat)
        },
    }
}

/// The one commit whose id begins with `prefix`, as an index.
pub open spec fn lookup(commits: Seq<CommitView>, prefix: Seq<char>) -> Result<int, Error> {
    let first = first_match(commit_ids(commits), prefix, 0);
    if first >= commits.len() {
        Err(Error::CommitNotFound)
    } else if first_match(commit_ids(commits), prefix, first + 1) < commits.len() {
        Err(Error::AmbiguousQuery)
    } else {
        Ok(first)
    }
}

/// What a query asks for.
pub enum Query {
    /// The current commit.
    Head,
    /// The commit of the branch of this name.
    Branch(Seq<char>),
    /// The commit whose id begins so.
    CommitId(Seq<char>),
    /// The commit of the branch of this name if there is one, else the
    /// commit whose id begins so.
    Other(Seq<char>),
}

/// How a query is read: the word `HEAD` first, then the name of a branch,
/// then the beginning of a commit id.
pub open spec fn classify(s: Store, query: Seq<char>) -> Query {
    if query == HEAD_QUERY@ {
        Query::Head
    } else if has_branch(s.branches, query) {
        Query::Branch(query)
    } else {
        Query::CommitId(query)
    }
}

/// The beginning of the id of the commit that `query` asks for; there is
/// none for a branch that does not exist.
pub open spec fn target(s: Store, query: Query) -> Option<Seq<char>> {
    match query {
        Query::Head => Some(s.head.commit_id),
        Query::Branch(name) => if has_branch(s.branches, name) {
            Some(branch_commit(s.branches, name))
        } else {
            None
        },
        Query::CommitId(prefix) => Some(prefix),
        Query::Other(text) => if has_branch(s.branches, text) {
            Some(branch_commit(s.branches, text))
        } else {
            Some(text)
        },
    }
}

/// The commit that `query` asks for, as an index.
pub open spec fn find(s: Store, query: Query) -> Result<int, Error> {
    match target(s, query) {
        Some(prefix) => lookup(s.commits, prefix),
        None => Err(Error::CommitNotFound),
    }
}

/// The commit that the query resolves to, as an index.
pub open spec fn resolve(s: Store, query: Seq<char>) -> Result<int, Error> {
    find(s, classify(s, query))
}

/// What a checkout makes of the store: HEAD moves to the commit that the
/// query resolves to; it attaches to the branch if the query named one, is
/// detached if the query gave the beginning of an id, and keeps its state
/// if the query was `HEAD`.
pub open spec fn checkout_result(s: Store, query: Seq<char>) -> Result<Store, Error> {
    match resolve(s, query) {
        Err(e) => Err(e),
        Ok(i) => Ok(
            Store {
                head: match classify(s, query) {
                    Query::Head => HeadView { commit_id: s.commits[i].id, ..s.head },
                    Query::Branch(name) => HeadView {
                        branch_name: name,
                        commit_id: s.commits[i].id,
                        detached: false,
                    },
                    Query::CommitId(_) => HeadView {
                        commit_id: s.commits[i].id,
                        detached: true,
                        ..s.head
                    },
                    Query::Other(_) => HeadView { commit_id: s.commits[i].id, ..s.head },
                },
                ..s
            },
        ),
    }
}

/// The parent of a commit made on top of `head_commit`.
pub open spec fn parent_for(head_commit: Seq<char>) -> Option<Seq<char>> {
    if head_commit == NO_COMMIT@ {
        None
    } else {
        Some(head_commit)
    }
}

/// `branches` with the commit id of the branch at `at` set to `id`.
pub open spec fn with_branch_at(branches: Seq<BranchView>, at: int, id: Seq<char>) -> Seq<
    BranchView,
> {
    branches.update(at, BranchView { commit_id: id, ..branches[at] })
}

/// What a commit with id `id` makes of the store: the commit is appended
/// with the current commit as its parent, and the current branch and HEAD
/// move to it. It is refused while HEAD is detached, and where the id is
/// taken.
pub open spec fn commit_result(
    s: Store,
    message: Option<Seq<char>>,
    date: Seq<char>,
    id: Seq<char>,
) -> Result<Store, Error> {
    if s.head.detached {
        Err(Error::DetachedHEAD)
    } else if has_commit(s.commits, id) {
        Err(Error::IdCollision)
    } else {
        Ok(
            Store {
                commits: s.commits.push(
                    CommitView { id, parent_id: parent_for(s.head.commit_id), date, message },
                ),
                head: HeadView { commit_id: id, ..s.head },
                branches: with_branch_at(
                    s.branches,
                    position(branch_names(s.branches), s.head.branch_name, 0),
                    id,
                ),
            },
        )
    }
}

/// What creating the branch `name` makes of the store: the new branch
/// starts at the current commit.
pub open spec fn create_branch_result(s: Store, name: Seq<char>) -> Result<Store, Error> {
    if has_branch(s.branches, name) {
        Err(Error::BranchAlreadyExists)
    } else {
        Ok(Store { branches: s.branches.push(BranchView { name, commit_id: s.head.commit_id }), ..s })
    }
}

/// What deleting the branch `name` makes of the store. The branch that
/// HEAD is attached to cannot be deleted.
pub open spec fn delete_branch_result(s: Store, name: Seq<char>) -> Result<Store, Error> {
    if !has_branch(s.branches, name) {
        Err(Error::BranchNotFound)
    } else if !s.head.detached && s.head.branch_name == name {
        Err(Error::CurrentBranch)
    } else {
        Ok(Store { branches: s.branches.remove(position(branch_names(s.branches), name, 0)), ..s })
    }
}

/// The commit at index `i` followed by its ancestors, nearest first. A
/// parent is looked for among the commits before its child.
pub open spec fn ancestry(commits: Seq<CommitView>, i: int) -> Seq<CommitView>
    decreases i,
{
    if 0 <= i < commits.len() {
        seq![commits[i]] + (match commits[i].parent_id {
            Some(p) => {
                let j = position(commit_ids(commits).take(i), p, 0);
                if 0 <= j < i {
                    ancestry(commits, j)
                } else {
                    seq![]
                }
            },
            None => seq![],
        })
    } else {
        seq![]
    }
}

/// The current commit and its ancestors, nearest first.
pub open spec fn history(s: Store) -> Result<Seq<CommitView>, Error> {
    match lookup(s.commits, s.head.commit_id) {
        Ok(i) => Ok(ancestry(s.commits, i)),
        Err(e) => Err(e),
    }
}

} // verus!
