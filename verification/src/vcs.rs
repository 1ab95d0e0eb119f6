//! The snapshot store: commits, branches and HEAD.
//!
//! The store is one document. [`VCS`] holds a well-formed document and
//! changes it only through operations that keep it so; reading the
//! document from its file and writing it back are the caller's part.

pub mod laws;
pub mod model;

use crate::digest::{is_hex_digit, sha1_hex, sha1_hex_of};
use crate::text::{chars_of, copy_opt, copy_text, same_text, starts_with, strings, text_of};
use model::{
    branch_names, commit_ids, first_match, is_commit_id, position, store_wf, BranchView,
    CommitView, HeadView, LoadedView, Store, COMMIT_ID_LEN, DEFAULT_BRANCH, HEAD_QUERY,
    NO_COMMIT,
};
use vstd::prelude::*;

pub use model::{error_text, Error};

verus! {

/// One snapshot.
#[derive(Debug)]
pub struct Commit {
    pub id: String,
    pub parent_id: Option<String>,
    pub date: String,
    pub message: Option<String>,
}

/// A named pointer to a commit.
#[derive(Debug)]
pub struct Branch {
    pub name: String,
    pub commit_id: String,
}

/// The pointer to the current commit.
#[derive(Debug)]
pub struct Head {
    pub branch_name: String,
    pub commit_id: String,
    pub detached: bool,
}

/// The document that is kept on disk.
#[derive(Debug)]
pub struct CommitsData {
    pub commits: Vec<Commit>,
    pub head: Head,
    pub branches: Vec<Branch>,
}

/// What reading the store's file came to.
#[derive(Debug)]
pub enum Loaded {
    /// There is no file.
    Missing,
    /// The file could not be read.
    Unreadable,
    /// The file's text is not a store.
    Malformed,
    /// The file holds this document.
    Document(CommitsData),
}

impl View for Commit {
    type V = CommitView;

    open spec fn view(&self) -> CommitView {
        CommitView {
            id: self.id@,
            parent_id: text_of(self.parent_id),
            date: self.date@,
            message: text_of(self.message),
        }
    }
}

impl View for Branch {
    type V = BranchView;

    open spec fn view(&self) -> BranchView {
        BranchView { name: self.name@, commit_id: self.commit_id@ }
    }
}

impl View for Head {
    type V = HeadView;

    open spec fn view(&self) -> HeadView {
        HeadView {
            branch_name: self.branch_name@,
            commit_id: self.commit_id@,
            detached: self.detached,
        }
    }
}

/// The values of `v`.
pub open spec fn commit_views(v: Seq<Commit>) -> Seq<CommitView> {
    Seq::new(v.len(), |i: int| v[i]@)
}

/// The values of `v`.
pub open spec fn branch_views(v: Seq<Branch>) -> Seq<BranchView> {
    Seq::new(v.len(), |i: int| v[i]@)
}

impl View for CommitsData {
    type V = Store;

    open spec fn view(&self) -> Store {
        Store {
            commits: commit_views(self.commits@),
            head: self.head@,
            branches: branch_views(self.branches@),
        }
    }
}

impl View for Loaded {
    type V = LoadedView;

    open spec fn view(&self) -> LoadedView {
        match self {
            Loaded::Missing => LoadedView::Missing,
            Loaded::Unreadable => LoadedView::Unreadable,
            Loaded::Malformed => LoadedView::Malformed,
            Loaded::Document(d) => LoadedView::Document(d@),
        }
    }
}

/// The id of a commit made at `date`: the SHA-1 digest of the date's
/// text, in lowercase hexadecimal.
pub open spec fn commit_id_for(date: Seq<char>) -> Seq<char> {
    sha1_hex(date)
}

impl Commit {
    /// A commit made at `date` on top of `parent_id`. Its id is the digest
    /// of the date's text. There is none for a date whose text is too long
    /// for a digest.
    pub fn new(parent_id: Option<String>, message: Option<String>, date: &str) -> (r: Option<
        Self,
    >)
        ensures
            r matches Some(c) ==> c@ == (CommitView {
                id: commit_id_for(date@),
                parent_id: text_of(parent_id),
                date: date@,
                message: text_of(message),
            }) && is_commit_id(c@.id),
            r is None <==> vstd::utf8::encode_utf8(date@).len() >= crate::digest::MAX_INPUT_BYTES,
    {
        match sha1_hex_of(date) {
            None => None,
            Some(id) => {
                proof {
                    crate::digest::lemma_hex_lower_digits(
                        crate::digest::sha1_of(vstd::utf8::encode_utf8(date@)),
                    );
                }
                Some(Commit { id, parent_id, date: copy_text(date), message })
            },
        }
    }

    /// A copy of the commit.
    pub fn duplicate(&self) -> (c: Self)
        ensures
            c@ == self@,
    {
        Commit {
            id: copy_text(self.id.as_str()),
            parent_id: copy_opt(&self.parent_id),
            date: copy_text(self.date.as_str()),
            message: copy_opt(&self.message),
        }
    }
}

impl Branch {
    /// A copy of the branch.
    pub fn duplicate(&self) -> (b: Self)
        ensures
            b@ == self@,
    {
        Branch { name: copy_text(self.name.as_str()), commit_id: copy_text(self.commit_id.as_str()) }
    }
}

impl Head {
    /// A copy of HEAD.
    pub fn duplicate(&self) -> (h: Self)
        ensures
            h@ == self@,
    {
        Head {
            branch_name: copy_text(self.branch_name.as_str()),
            commit_id: copy_text(self.commit_id.as_str()),
            detached: self.detached,
        }
    }
}

/// Copies of `commits`.
pub fn duplicate_commits(commits: &Vec<Commit>) -> (out: Vec<Commit>)
    ensures
        commit_views(out@) == commit_views(commits@),
{
    let mut out: Vec<Commit> = Vec::new();
    let mut i: usize = 0;
    while i < commits.len()
        invariant
            i <= commits.len(),
            commit_views(out@) == commit_views(commits@).take(i as int),
        decreases commits.len() - i,
    {
        let ghost before = out@;
        out.push(commits[i].duplicate());
        assert(commit_views(out@) =~= commit_views(before).push(commits@[i as int]@));
        assert(commit_views(commits@).take(i + 1) =~= commit_views(commits@).take(i as int).push(
            commits@[i as int]@,
        ));
        i += 1;
    }
    assert(commit_views(commits@).take(commits.len() as int) =~= commit_views(commits@));
    out
}

/// Copies of `branches`.
pub fn duplicate_branches(branches: &Vec<Branch>) -> (out: Vec<Branch>)
    ensures
        branch_views(out@) == branch_views(branches@),
{
    let mut out: Vec<Branch> = Vec::new();
    let mut i: usize = 0;
    while i < branches.len()
        invariant
            i <= branches.len(),
            branch_views(out@) == branch_views(branches@).take(i as int),
        decreases branches.len() - i,
    {
        let ghost before = out@;
        out.push(branches[i].duplicate());
        assert(branch_views(out@) =~= branch_views(before).push(branches@[i as int]@));
        assert(branch_views(branches@).take(i + 1) =~= branch_views(branches@).take(
            i as int,
        ).push(branches@[i as int]@));
        i += 1;
    }
    assert(branch_views(branches@).take(branches.len() as int) =~= branch_views(branches@));
    out
}

/// Whether `id` has the form of a commit id.
pub fn has_id_form(id: &str) -> (r: bool)
    ensures
        r == is_commit_id(id@),
{
    let v = chars_of(id);
    if v.len() != COMMIT_ID_LEN {
        return false;
    }
    let mut i: usize = 0;
    while i < v.len()
        invariant
            i <= v.len(),
            v@ == id@,
            forall|j: int| 0 <= j < i ==> is_hex_digit(#[trigger] v@[j]),
        decreases v.len() - i,
    {
        let c = v[i];
        if !((c >= '0' && c <= '9') || (c >= 'a' && c <= 'f')) {
            return false;
        }
        i += 1;
    }
    true
}

/// The index of the first commit before `limit`, at or after `from`, whose
/// id is `id`, or `limit`.
pub fn commit_position(commits: &Vec<Commit>, id: &str, from: usize, limit: usize) -> (at: usize)
    requires
        from <= limit <= commits.len(),
    ensures
        at == position(commit_ids(commit_views(commits@)).take(limit as int), id@, from as int),
        from <= at <= limit,
        at < limit ==> commits@[at as int].id@ == id@,
{
    let ghost ids = commit_ids(commit_views(commits@)).take(limit as int);
    let mut i: usize = from;
    while i < limit
        invariant
            from <= i <= limit <= commits.len(),
            ids == commit_ids(commit_views(commits@)).take(limit as int),
            position(ids, id@, from as int) == position(ids, id@, i as int),
        decreases limit - i,
    {
        assert(ids[i as int] == commits@[i as int].id@);
        if same_text(commits[i].id.as_str(), id) {
            return i;
        }
        i += 1;
    }
    i
}

/// The index of the first commit, at or after `from`, whose id begins
/// with `prefix`, or the number of commits.
pub fn match_position(commits: &Vec<Commit>, prefix: &str, from: usize) -> (at: usize)
    requires
        from <= commits.len(),
    ensures
        at == first_match(commit_ids(commit_views(commits@)), prefix@, from as int),
        from <= at <= commits.len(),
{
    let ghost ids = commit_ids(commit_views(commits@));
    let mut i: usize = from;
    while i < commits.len()
        invariant
            from <= i <= commits.len(),
            ids == commit_ids(commit_views(commits@)),
            first_match(ids, prefix@, from as int) == first_match(ids, prefix@, i as int),
        decreases commits.len() - i,
    {
        assert(ids[i as int] == commits@[i as int].id@);
        if starts_with(commits[i].id.as_str(), prefix) {
            return i;
        }
        i += 1;
    }
    i
}

/// The index of the first branch, at or after `from`, whose name is
/// `name`, or the number of branches.
pub fn branch_position(branches: &Vec<Branch>, name: &str, from: usize) -> (at: usize)
    requires
        from <= branches.len(),
    ensures
        at == position(branch_names(branch_views(branches@)), name@, from as int),
        from <= at <= branches.len(),
        at < branches.len() ==> branches@[at as int].name@ == name@,
{
    let ghost names = branch_names(branch_views(branches@));
    let mut i: usize = from;
    while i < branches.len()
        invariant
            from <= i <= branches.len(),
            names == branch_names(branch_views(branches@)),
            position(names, name@, from as int) == position(names, name@, i as int),
        decreases branches.len() - i,
    {
        assert(names[i as int] == branches@[i as int].name@);
        if same_text(branches[i].name.as_str(), name) {
            return i;
        }
        i += 1;
    }
    i
}

impl CommitsData {
    /// A fresh document: no commit, the default branch without a commit,
    /// and HEAD on that branch.
    pub fn new() -> (d: Self)
        ensures
            d@ == model::initial_store(),
    {
        let mut branches: Vec<Branch> = Vec::new();
        branches.push(Branch { name: copy_text(DEFAULT_BRANCH), commit_id: copy_text(NO_COMMIT) });
        let d = CommitsData {
            commits: Vec::new(),
            head: Head {
                branch_name: copy_text(DEFAULT_BRANCH),
                commit_id: copy_text(NO_COMMIT),
                detached: false,
            },
            branches,
        };
        assert(d@.commits =~= model::initial_store().commits);
        assert(d@.branches =~= model::initial_store().branches);
        d
    }

    /// A copy of the document.
    pub fn duplicate(&self) -> (d: Self)
        ensures
            d@ == self@,
    {
        CommitsData {
            commits: duplicate_commits(&self.commits),
            head: self.head.duplicate(),
            branches: duplicate_branches(&self.branches),
        }
    }

    /// Whether `id` is the sentinel or the id of a commit.
    fn refers_to(&self, id: &str) -> (r: bool)
        ensures
            r == model::refers(self@.commits, id@),
    {
        let n = self.commits.len();
        assert(commit_ids(self@.commits).take(n as int) =~= commit_ids(self@.commits));
        same_text(id, NO_COMMIT) || commit_position(&self.commits, id, 0, n) < n
    }

    fn commits_valid(&self) -> (r: bool)
        ensures
            r == model::commits_wf(self@.commits),
    {
        let ghost commits = self@.commits;
        let ghost ids = commit_ids(commits);
        let n = self.commits.len();
        assert(ids.take(n as int) =~= ids);
        let mut i: usize = 0;
        while i < n
            invariant
                i <= n,
                n == self.commits.len(),
                commits == self@.commits,
                ids == commit_ids(commits),
                ids.take(n as int) == ids,
                forall|k: int|
                    0 <= k < i ==> is_commit_id((#[trigger] commits[k]).id) && position(
                        ids,
                        commits[k].id,
                        0,
                    ) == k,
                forall|k: int|
                    0 <= k < i ==> ((#[trigger] commits[k]).parent_id matches Some(p) ==> position(
                        ids,
                        p,
                        0,
                    ) < k),
            decreases n - i,
        {
            let c = &self.commits[i];
            assert(commits[i as int] == c@);
            if !has_id_form(c.id.as_str()) {
                return false;
            }
            if commit_position(&self.commits, c.id.as_str(), 0, n) != i {
                return false;
            }
            match &c.parent_id {
                Some(p) => {
                    if commit_position(&self.commits, p.as_str(), 0, n) >= i {
                        return false;
                    }
                },
                None => {},
            }
            i += 1;
        }
        true
    }

    fn branches_valid(&self) -> (r: bool)
        ensures
            r == model::branches_wf(self@.commits, self@.branches),
    {
        let ghost branches = self@.branches;
        let mut b: usize = 0;
        while b < self.branches.len()
            invariant
                b <= self.branches.len(),
                branches == self@.branches,
                forall|k: int|
                    0 <= k < b ==> model::refers(self@.commits, (#[trigger] branches[k]).commit_id)
                        && position(branch_names(branches), branches[k].name, 0) == k,
            decreases self.branches.len() - b,
        {
            let branch = &self.branches[b];
            assert(branches[b as int] == branch@);
            if !self.refers_to(branch.commit_id.as_str()) {
                return false;
            }
            if branch_position(&self.branches, branch.name.as_str(), 0) != b {
                return false;
            }
            b += 1;
        }
        true
    }

    fn head_valid(&self) -> (r: bool)
        ensures
            r == model::head_wf(self@),
    {
        if !self.refers_to(self.head.commit_id.as_str()) {
            return false;
        }
        if self.head.detached {
            return true;
        }
        let at = branch_position(&self.branches, self.head.branch_name.as_str(), 0);
        if at >= self.branches.len() {
            return false;
        }
        assert(self@.branches[at as int] == self.branches@[at as int]@);
        same_text(self.branches[at].commit_id.as_str(), self.head.commit_id.as_str())
    }

    /// Whether the document is a well-formed store.
    pub fn is_valid(&self) -> (r: bool)
        ensures
            r == store_wf(self@),
    {
        self.commits_valid() && self.branches_valid() && self.head_valid()
    }
}

/// What a query asks for.
#[derive(Debug)]
pub enum CommitQuery {
    /// The current commit.
    HEAD,
    /// The commit of the branch of this name.
    Branch(String),
    /// The commit whose id begins so.
    CommitID(String),
    /// The commit of the branch of this name if there is one, else the
    /// commit whose id begins so.
    Other(String),
}

impl View for CommitQuery {
    type V = model::Query;

    open spec fn view(&self) -> model::Query {
        match self {
            CommitQuery::HEAD => model::Query::Head,
            CommitQuery::Branch(name) => model::Query::Branch(name@),
            CommitQuery::CommitID(prefix) => model::Query::CommitId(prefix@),
            CommitQuery::Other(text) => model::Query::Other(text@),
        }
    }
}

impl CommitQuery {
    pub fn is_head(&self) -> (r: bool)
        ensures
            r == (self@ is Head),
    {
        match self {
            CommitQuery::HEAD => true,
            _ => false,
        }
    }

    pub fn is_tag(&self) -> (r: bool)
        ensures
            r == (self@ is Branch),
    {
        match self {
            CommitQuery::Branch(_) => true,
            _ => false,
        }
    }

    pub fn is_commit(&self) -> (r: bool)
        ensures
            r == (self@ is CommitId),
    {
        match self {
            CommitQuery::CommitID(_) => true,
            _ => false,
        }
    }
}

/// Reads a query: the word `HEAD` first, then the name of a branch, then
/// the beginning of a commit id.
pub fn create_commit_query_from(query: &str, commits_data: &CommitsData) -> (q: CommitQuery)
    ensures
        q@ == model::classify(commits_data@, query@),
{
    if same_text(query, HEAD_QUERY) {
        CommitQuery::HEAD
    } else if branch_position(&commits_data.branches, query, 0) < commits_data.branches.len() {
        CommitQuery::Branch(copy_text(query))
    } else {
        CommitQuery::CommitID(copy_text(query))
    }
}

/// The beginning of the id of the commit that `query` asks for.
pub fn get_commit_id_from_query(commits_data: &CommitsData, query: &CommitQuery) -> (r: Option<
    String,
>)
    ensures
        text_of(r) == model::target(commits_data@, query@),
{
    match query {
        CommitQuery::HEAD => Some(copy_text(commits_data.head.commit_id.as_str())),
        CommitQuery::Branch(name) => {
            let at = branch_position(&commits_data.branches, name.as_str(), 0);
            if at < commits_data.branches.len() {
                assert(commits_data@.branches[at as int] == commits_data.branches@[at as int]@);
                Some(copy_text(commits_data.branches[at].commit_id.as_str()))
            } else {
                None
            }
        },
        CommitQuery::CommitID(prefix) => Some(copy_text(prefix.as_str())),
        CommitQuery::Other(text) => {
            let at = branch_position(&commits_data.branches, text.as_str(), 0);
            if at < commits_data.branches.len() {
                assert(commits_data@.branches[at as int] == commits_data.branches@[at as int]@);
                Some(copy_text(commits_data.branches[at].commit_id.as_str()))
            } else {
                Some(copy_text(text.as_str()))
            }
        },
    }
}

impl CommitsData {
    /// The branches, in order.
    pub fn get_all_branches(&self) -> (branches: &Vec<Branch>)
        ensures
            branches == &self.branches,
    {
        &self.branches
    }

    /// The index of the branch that HEAD is attached to, if it is attached
    /// to one.
    pub fn get_current_branch(&self) -> (r: Option<usize>)
        ensures
            match r {
                Some(at) => !self@.head.detached && at == position(
                    branch_names(self@.branches),
                    self@.head.branch_name,
                    0,
                ) && at < self.branches.len(),
                None => self@.head.detached || !model::has_branch(
                    self@.branches,
                    self@.head.branch_name,
                ),
            },
    {
        if self.head.detached {
            return None;
        }
        let at = branch_position(&self.branches, self.head.branch_name.as_str(), 0);
        if at < self.branches.len() {
            Some(at)
        } else {
            None
        }
    }

    /// The index of the one commit whose id begins with `prefix`.
    pub fn find_commit(&self, prefix: &str) -> (r: Result<usize, Error>)
        ensures
            match model::lookup(self@.commits, prefix@) {
                Ok(i) => r matches Ok(at) && at == i && at < self.commits.len(),
                Err(e) => r matches Err(x) && x == e,
            },
    {
        proof {
            model::lemma_first_match(commit_ids(self@.commits), prefix@, 0);
        }
        let first = match_position(&self.commits, prefix, 0);
        if first >= self.commits.len() {
            return Err(Error::CommitNotFound);
        }
        if match_position(&self.commits, prefix, first + 1) < self.commits.len() {
            return Err(Error::AmbiguousQuery);
        }
        Ok(first)
    }

    /// The index of the commit that `query` asks for.
    pub fn get_commit_by(&self, query: &CommitQuery) -> (r: Result<usize, Error>)
        ensures
            match model::find(self@, query@) {
                Ok(i) => r matches Ok(at) && at == i && at < self.commits.len(),
                Err(e) => r matches Err(x) && x == e,
            },
    {
        match get_commit_id_from_query(self, query) {
            Some(prefix) => self.find_commit(prefix.as_str()),
            None => Err(Error::CommitNotFound),
        }
    }

    /// The commit that `query` asks for, followed by its ancestors.
    pub fn get_commits_by(&self, query: &CommitQuery) -> (r: Result<CommitsIter, Error>)
        ensures
            match model::find(self@, query@) {
                Ok(i) => r matches Ok(it) && it@ == model::ancestry(self@.commits, i),
                Err(e) => r matches Err(x) && x == e,
            },
    {
        match self.get_commit_by(query) {
            Ok(at) => Ok(CommitsIter { commits: duplicate_commits(&self.commits), head: Some(at) }),
            Err(e) => Err(e),
        }
    }
}

/// A walk from a commit through its ancestors, nearest first.
pub struct CommitsIter {
    commits: Vec<Commit>,
    head: Option<usize>,
}

impl View for CommitsIter {
    type V = Seq<CommitView>;

    /// The commits that the walk has yet to give out.
    closed spec fn view(&self) -> Seq<CommitView> {
        match self.head {
            Some(i) => model::ancestry(commit_views(self.commits@), i as int),
            None => seq![],
        }
    }
}

impl CommitsIter {
    #[verifier::type_invariant]
    spec fn in_range(self) -> bool {
        self.head matches Some(i) ==> i < self.commits.len()
    }

    /// Gives out the next commit of the walk, if one is left.
    pub fn next(&mut self) -> (r: Option<Commit>)
        ensures
            match r {
                Some(c) => old(self)@.len() > 0 && c@ == old(self)@[0] && final(self)@ == old(
                    self,
                )@.skip(1),
                None => old(self)@.len() == 0 && final(self)@ == old(self)@,
            },
    {
        proof {
            use_type_invariant(&*self);
        }
        let i = match self.head {
            Some(i) => i,
            None => {
                return None;
            },
        };
        let ghost views = commit_views(self.commits@);
        assert(views[i as int] == self.commits@[i as int]@);
        let c = self.commits[i].duplicate();
        let next = match &self.commits[i].parent_id {
            Some(p) => {
                let j = commit_position(&self.commits, p.as_str(), 0, i);
                if j < i {
                    Some(j)
                } else {
                    None
                }
            },
            None => None,
        };
        let ghost rest = match next {
            Some(j) => model::ancestry(views, j as int),
            None => seq![],
        };
        assert(model::ancestry(views, i as int) == seq![views[i as int]] + rest);
        assert((seq![views[i as int]] + rest).skip(1) =~= rest);
        self.head = next;
        Some(c)
    }

    /// The commits that the walk has yet to give out, in order.
    pub fn collect(self) -> (out: Vec<Commit>)
        ensures
            commit_views(out@) == self@,
    {
        let mut it = self;
        let mut out: Vec<Commit> = Vec::new();
        loop
            invariant_except_break
                commit_views(out@) + it@ == self@,
            ensures
                commit_views(out@) == self@,
            decreases it@.len(),
        {
            let ghost before = out@;
            let ghost left = it@;
            match it.next() {
                Some(c) => {
                    out.push(c);
                    assert(commit_views(out@) =~= commit_views(before).push(left[0]));
                    assert(commit_views(before).push(left[0]) + left.skip(1) =~= commit_views(
                        before,
                    ) + left);
                },
                None => {
                    assert(commit_views(out@) + left =~= commit_views(out@));
                    break ;
                },
            }
        }
        out
    }
}

/// What a commit made at `date` makes of the store. It is refused while
/// HEAD is detached, for a date whose text is too long for a digest, and
/// where the digest is the id of an earlier commit.
pub open spec fn commit_outcome(s: Store, message: Option<Seq<char>>, date: Seq<char>) -> Result<
    Store,
    Error,
> {
    if s.head.detached {
        Err(Error::DetachedHEAD)
    } else if vstd::utf8::encode_utf8(date).len() >= crate::digest::MAX_INPUT_BYTES {
        Err(Error::InvalidFormat)
    } else {
        model::commit_result(s, message, date, commit_id_for(date))
    }
}

/// The snapshot store.
pub struct VCS {
    commits_file_path: String,
    commits_data: CommitsData,
}

impl View for VCS {
    type V = Store;

    closed spec fn view(&self) -> Store {
        self.commits_data@
    }
}

impl VCS {
    #[verifier::type_invariant]
    spec fn well_formed(self) -> bool {
        store_wf(self.commits_data@)
    }

    /// The path of the file that the store is kept in.
    pub closed spec fn path(&self) -> Seq<char> {
        self.commits_file_path@
    }

    /// Opens the store that was read from `commits_file_path`. A missing
    /// file means that there is no store yet; a document is accepted if it
    /// is well formed.
    pub fn new(commits_file_path: &str, loaded: Loaded) -> (r: Result<Self, Error>)
        ensures
            match model::open_result(loaded@) {
                Ok(s) => r matches Ok(v) && v@ == s && v.path() == commits_file_path@ && store_wf(
                    v@,
                ),
                Err(e) => r matches Err(x) && x == e,
            },
    {
        match loaded {
            Loaded::Missing => Err(Error::NotInitialized),
            Loaded::Unreadable => Err(Error::FileOperationError),
            Loaded::Malformed => Err(Error::InvalidFormat),
            Loaded::Document(d) => {
                if d.is_valid() {
                    Ok(VCS { commits_file_path: copy_text(commits_file_path), commits_data: d })
                } else {
                    Err(Error::InvalidFormat)
                }
            },
        }
    }

    /// A fresh store to be kept in `commits_file_path`.
    pub fn init(commits_file_path: &str) -> (v: Self)
        ensures
            v@ == model::initial_store(),
            v.path() == commits_file_path@,
            store_wf(v@),
    {
        proof {
            laws::lemma_initial_store_wf();
        }
        VCS { commits_file_path: copy_text(commits_file_path), commits_data: CommitsData::new() }
    }

    /// Does nothing but tell that the store is well formed.
    pub fn valid(&self)
        ensures
            store_wf(self@),
    {
        proof {
            use_type_invariant(self);
        }
    }

    /// The path of the file that the store is kept in.
    pub fn commits_file_path(&self) -> (p: String)
        ensures
            p@ == self.path(),
    {
        copy_text(self.commits_file_path.as_str())
    }

    /// A copy of the store's document, to be written to its file.
    pub fn document(&self) -> (d: CommitsData)
        ensures
            d@ == self@,
            store_wf(d@),
    {
        proof {
            use_type_invariant(self);
        }
        self.commits_data.duplicate()
    }

    /// Whether HEAD is detached.
    pub fn is_detached(&self) -> (r: bool)
        ensures
            r == self@.head.detached,
    {
        self.commits_data.head.detached
    }

    /// Records a commit made at `date`, with the current commit as its
    /// parent, and moves the current branch and HEAD to it. The store is
    /// left as it was where the commit is refused.
    pub fn commit(&mut self, message: Option<String>, date: &str) -> (r: Result<Commit, Error>)
        ensures
            match commit_outcome(old(self)@, text_of(message), date@) {
                Ok(s) => r matches Ok(c) && final(self)@ == s && c@ == s.commits.last() && c@.id
                    == commit_id_for(date@),
                Err(e) => r matches Err(x) && x == e && final(self)@ == old(self)@,
            },
            store_wf(final(self)@),
            final(self).path() == old(self).path(),
    {
        proof {
            use_type_invariant(&*self);
        }
        let data = &self.commits_data;
        if data.head.detached {
            return Err(Error::DetachedHEAD);
        }
        let parent_id = if same_text(data.head.commit_id.as_str(), NO_COMMIT) {
            None
        } else {
            Some(copy_text(data.head.commit_id.as_str()))
        };
        let ghost message_text = text_of(message);
        let commit = match Commit::new(parent_id, message, date) {
            Some(c) => c,
            None => {
                return Err(Error::InvalidFormat);
            },
        };
        let n = data.commits.len();
        assert(commit_ids(data@.commits).take(n as int) =~= commit_ids(data@.commits));
        if commit_position(&data.commits, commit.id.as_str(), 0, n) < n {
            return Err(Error::IdCollision);
        }
        let at = branch_position(&data.branches, data.head.branch_name.as_str(), 0);
        let ghost old_store = data@;
        let ghost new_store = model::commit_result(
            old_store,
            message_text,
            date@,
            commit_id_for(date@),
        )->Ok_0;
        proof {
            laws::lemma_commit_wf(old_store, message_text, date@, commit_id_for(date@));
        }
        let mut commits = duplicate_commits(&data.commits);
        let ghost copied = commits@;
        commits.push(commit.duplicate());
        assert(commit_views(commits@) =~= commit_views(copied).push(commit@));
        let mut branches = duplicate_branches(&data.branches);
        let ghost copied_branches = branches@;
        assert(branch_views(copied_branches)[at as int] == copied_branches[at as int]@);
        let name = copy_text(branches[at].name.as_str());
        branches.set(at, Branch { name, commit_id: copy_text(commit.id.as_str()) });
        assert(branch_views(branches@) =~= model::with_branch_at(
            old_store.branches,
            at as int,
            commit@.id,
        ));
        let head = Head {
            branch_name: copy_text(data.head.branch_name.as_str()),
            commit_id: copy_text(commit.id.as_str()),
            detached: false,
        };
        let new_data = CommitsData { commits, head, branches };
        assert(new_data@ == new_store);
        self.commits_data = new_data;
        Ok(commit)
    }

    /// The current commit followed by its ancestors, nearest first. There
    /// is none while the current branch has no commit.
    pub fn get_current_commits(&self) -> (r: Result<CommitsIter, Error>)
        ensures
            match model::history(self@) {
                Ok(h) => r matches Ok(it) && it@ == h,
                Err(e) => r matches Err(x) && x == e,
            },
    {
        self.commits_data.get_commits_by(&CommitQuery::HEAD)
    }

    /// The name of the branch that HEAD is attached to.
    pub fn get_current_branch(&self) -> (name: String)
        requires
            !self@.head.detached,
        ensures
            name@ == self@.head.branch_name,
            model::has_branch(self@.branches, name@),
    {
        proof {
            use_type_invariant(self);
        }
        copy_text(self.commits_data.head.branch_name.as_str())
    }

    /// The names of all branches, in the order of their creation.
    pub fn get_all_branches(&self) -> (names: Vec<String>)
        ensures
            strings(names@) == branch_names(self@.branches),
    {
        let branches = self.commits_data.get_all_branches();
        let mut names: Vec<String> = Vec::new();
        let mut i: usize = 0;
        while i < branches.len()
            invariant
                i <= branches.len(),
                strings(names@) == branch_names(
                    branch_views(branches@),
                ).take(i as int),
            decreases branches.len() - i,
        {
            let ghost before = names@;
            let ghost all = branch_names(branch_views(branches@));
            names.push(copy_text(branches[i].name.as_str()));
            assert(all[i as int] == branches@[i as int].name@);
            assert(strings(names@) =~= strings(
                before,
            ).push(all[i as int]));
            assert(all.take(i + 1) =~= all.take(i as int).push(all[i as int]));
            i += 1;
        }
        assert(branch_names(branch_views(branches@)).take(branches.len() as int) =~= branch_names(
            branch_views(branches@),
        ));
        names
    }

    /// Creates the branch `name` at the current commit. A name that is
    /// taken is refused, and the store is then left as it was.
    pub fn create_branch(&mut self, name: &str) -> (r: Result<(), Error>)
        ensures
            match model::create_branch_result(old(self)@, name@) {
                Ok(s) => r is Ok && final(self)@ == s,
                Err(e) => r matches Err(x) && x == e && final(self)@ == old(self)@,
            },
            store_wf(final(self)@),
            final(self).path() == old(self).path(),
    {
        proof {
            use_type_invariant(&*self);
            laws::lemma_create_branch_wf(self@, name@);
        }
        let data = &self.commits_data;
        if branch_position(&data.branches, name, 0) < data.branches.len() {
            return Err(Error::BranchAlreadyExists);
        }
        let mut branches = duplicate_branches(&data.branches);
        let ghost copied = branches@;
        branches.push(
            Branch { name: copy_text(name), commit_id: copy_text(data.head.commit_id.as_str()) },
        );
        assert(branch_views(branches@) =~= branch_views(copied).push(
            BranchView { name: name@, commit_id: data@.head.commit_id },
        ));
        let new_data = CommitsData {
            commits: duplicate_commits(&data.commits),
            head: data.head.duplicate(),
            branches,
        };
        self.commits_data = new_data;
        Ok(())
    }

    /// Deletes the branch `name`. The branch that HEAD is attached to is
    /// not deleted, nor one that does not exist, and the store is then left
    /// as it was.
    pub fn delete_branch(&mut self, name: &str) -> (r: Result<(), Error>)
        ensures
            match model::delete_branch_result(old(self)@, name@) {
                Ok(s) => r is Ok && final(self)@ == s,
                Err(e) => r matches Err(x) && x == e && final(self)@ == old(self)@,
            },
            store_wf(final(self)@),
            final(self).path() == old(self).path(),
    {
        proof {
            use_type_invariant(&*self);
            laws::lemma_delete_branch_wf(self@, name@);
        }
        let data = &self.commits_data;
        let at = branch_position(&data.branches, name, 0);
        if at >= data.branches.len() {
            return Err(Error::BranchNotFound);
        }
        if !data.head.detached && same_text(data.head.branch_name.as_str(), name) {
            return Err(Error::CurrentBranch);
        }
        let mut branches = duplicate_branches(&data.branches);
        let ghost copied = branches@;
        branches.remove(at);
        assert(branch_views(branches@) =~= branch_views(copied).remove(at as int));
        let new_data = CommitsData {
            commits: duplicate_commits(&data.commits),
            head: data.head.duplicate(),
            branches,
        };
        self.commits_data = new_data;
        Ok(())
    }

    /// Moves HEAD to the commit that `query` resolves to. HEAD attaches to
    /// the branch if the query names one, and is detached if the query
    /// gives the beginning of a commit id. The store is left as it was
    /// where the query finds no commit or more than one.
    pub fn checkout(&mut self, query: &str) -> (r: Result<(), Error>)
        ensures
            match model::checkout_result(old(self)@, query@) {
                Ok(s) => r is Ok && final(self)@ == s,
                Err(e) => r matches Err(x) && x == e && final(self)@ == old(self)@,
            },
            store_wf(final(self)@),
            final(self).path() == old(self).path(),
    {
        proof {
            use_type_invariant(&*self);
        }
        let data = &self.commits_data;
        let commit_query = create_commit_query_from(query, data);
        let at = match data.get_commit_by(&commit_query) {
            Ok(at) => at,
            Err(e) => {
                return Err(e);
            },
        };
        proof {
            laws::lemma_checkout_wf(self@, query@);
        }
        assert(data@.commits[at as int] == data.commits@[at as int]@);
        let commit_id = copy_text(data.commits[at].id.as_str());
        let head = match commit_query {
            CommitQuery::Branch(name) => Head { branch_name: name, commit_id, detached: false },
            CommitQuery::CommitID(_) => Head {
                branch_name: copy_text(data.head.branch_name.as_str()),
                commit_id,
                detached: true,
            },
            _ => Head {
                branch_name: copy_text(data.head.branch_name.as_str()),
                commit_id,
                detached: data.head.detached,
            },
        };
        let new_data = CommitsData {
            commits: duplicate_commits(&data.commits),
            head,
            branches: duplicate_branches(&data.branches),
        };
        self.commits_data = new_data;
        Ok(())
    }
}

} // verus!
