//! What holds of every well-formed store and of every operation on one.

use crate::digest::is_hex_digit;
use crate::vcs::model::{
    ancestry, branch_commit, branch_names, checkout_result, classify, commit_ids, commit_result,
    commits_wf, create_branch_result, delete_branch_result, first_match, has_branch, has_commit, history,
    initial_store, is_commit_id, lemma_first_match, lemma_position, lookup, open_result, position,
    refers, resolve, store_wf, target, CommitView, Error, LoadedView, Query, Store, DEFAULT_BRANCH,
    HEAD_QUERY, NO_COMMIT,
};
use vstd::prelude::*;

verus! {

/// Appending a key leaves the position of every key that was there, puts
/// the new key at the end, and leaves any other key absent.
pub proof fn lemma_position_push(keys: Seq<Seq<char>>, added: Seq<char>, key: Seq<char>, from: int)
    requires
        0 <= from <= keys.len(),
    ensures
        position(keys.push(added), key, from) == if position(keys, key, from) < keys.len() {
            position(keys, key, from)
        } else if added == key {
            keys.len() as int
        } else {
            keys.len() as int + 1
        },
    decreases keys.len() - from,
{
    if from < keys.len() {
        assert(keys.push(added)[from] == keys[from]);
        if keys[from] != key {
            lemma_position_push(keys, added, key, from + 1);
        }
    } else {
        assert(keys.push(added)[from] == added);
        assert(position(keys.push(added), key, from + 1) == keys.len() + 1);
    }
}

/// A key that begins with a text as long as itself is that text.
pub proof fn lemma_prefix_of_equal_length(prefix: Seq<char>, key: Seq<char>)
    requires
        prefix.is_prefix_of(key),
        prefix.len() == key.len(),
    ensures
        prefix == key,
{
    assert(key.subrange(0, prefix.len() as int) =~= key);
}

/// What `lookup` finds: the one commit whose id begins with the prefix.
/// It finds none exactly when no id begins so, and calls the query
/// ambiguous exactly when two ids do.
pub proof fn lemma_lookup(commits: Seq<CommitView>, prefix: Seq<char>)
    ensures
        lookup(commits, prefix) matches Ok(i) ==> 0 <= i < commits.len() && prefix.is_prefix_of(
            commits[i].id,
        ) && forall|j: int|
            0 <= j < commits.len() && j != i ==> !prefix.is_prefix_of((#[trigger] commits[j]).id),
        lookup(commits, prefix) == Err::<int, Error>(Error::CommitNotFound) <==> forall|j: int|
            0 <= j < commits.len() ==> !prefix.is_prefix_of((#[trigger] commits[j]).id),
        lookup(commits, prefix) == Err::<int, Error>(Error::AmbiguousQuery) <==> exists|
            j: int,
            k: int,
        |
            0 <= j < k < commits.len() && prefix.is_prefix_of((#[trigger] commits[j]).id)
                && prefix.is_prefix_of((#[trigger] commits[k]).id),
        lookup(commits, prefix) is Ok || lookup(commits, prefix) == Err::<int, Error>(
            Error::CommitNotFound,
        ) || lookup(commits, prefix) == Err::<int, Error>(Error::AmbiguousQuery),
{
    let ids = commit_ids(commits);
    lemma_first_match(ids, prefix, 0);
    let first = first_match(ids, prefix, 0);
    assert forall|j: int| 0 <= j < commits.len() implies ids[j] == (#[trigger] commits[j]).id by {}
    if first < commits.len() {
        lemma_first_match(ids, prefix, first + 1);
        let second = first_match(ids, prefix, first + 1);
        assert(prefix.is_prefix_of(commits[first].id));
        if second < commits.len() {
            assert(prefix.is_prefix_of(commits[second].id));
        } else {
            assert forall|j: int| 0 <= j < commits.len() && j != first implies !prefix.is_prefix_of(
                (#[trigger] commits[j]).id,
            ) by {
                assert(ids[j] == commits[j].id);
            }
        }
    }
}

/// In a well-formed store the whole id of a commit finds that commit.
pub proof fn lemma_full_id_lookup(commits: Seq<CommitView>, i: int)
    requires
        commits_wf(commits),
        0 <= i < commits.len(),
    ensures
        lookup(commits, commits[i].id) == Ok::<int, Error>(i),
{
    let ids = commit_ids(commits);
    let key = commits[i].id;
    lemma_lookup(commits, key);
    assert(key.is_prefix_of(commits[i].id));
    assert forall|j: int| 0 <= j < commits.len() && key.is_prefix_of(
        (#[trigger] commits[j]).id,
    ) implies j == i by {
        lemma_prefix_of_equal_length(key, commits[j].id);
    }
}

/// In a well-formed store the sentinel finds no commit.
pub proof fn lemma_sentinel_lookup(commits: Seq<CommitView>)
    requires
        commits_wf(commits),
    ensures
        lookup(commits, NO_COMMIT@) == Err::<int, Error>(Error::CommitNotFound),
        !has_commit(commits, NO_COMMIT@),
{
    reveal_strlit("none");
    lemma_lookup(commits, NO_COMMIT@);
    assert forall|j: int| 0 <= j < commits.len() implies !NO_COMMIT@.is_prefix_of(
        (#[trigger] commits[j]).id,
    ) by {
        let id = commits[j].id;
        if NO_COMMIT@.is_prefix_of(id) {
            assert(id.subrange(0, 4)[0] == NO_COMMIT@[0]);
            assert(is_hex_digit(id[0]));
        }
    }
    lemma_position(commit_ids(commits), NO_COMMIT@, 0);
    if has_commit(commits, NO_COMMIT@) {
        let at = position(commit_ids(commits), NO_COMMIT@, 0);
        assert(commits[at].id == NO_COMMIT@);
        assert(is_commit_id(commits[at].id));
    }
}

/// What a reference that is not the sentinel finds: the commit it names.
pub proof fn lemma_reference_lookup(commits: Seq<CommitView>, id: Seq<char>)
    requires
        commits_wf(commits),
        refers(commits, id),
    ensures
        id == NO_COMMIT@ ==> lookup(commits, id) == Err::<int, Error>(Error::CommitNotFound),
        id != NO_COMMIT@ ==> lookup(commits, id) == Ok::<int, Error>(
            position(commit_ids(commits), id, 0),
        ) && commits[position(commit_ids(commits), id, 0)].id == id,
{
    lemma_sentinel_lookup(commits);
    if id != NO_COMMIT@ {
        lemma_position(commit_ids(commits), id, 0);
        let at = position(commit_ids(commits), id, 0);
        assert(commit_ids(commits)[at] == commits[at].id);
        lemma_full_id_lookup(commits, at);
    }
}

/// A fresh store is well formed.
pub proof fn lemma_initial_store_wf()
    ensures
        store_wf(initial_store()),
{
    let s = initial_store();
    assert(branch_names(s.branches)[0] == DEFAULT_BRANCH@);
    assert(position(branch_names(s.branches), DEFAULT_BRANCH@, 0) == 0);
}

/// Opening the document of a fresh store gives that store back.
pub proof fn lemma_init_then_open()
    ensures
        open_result(LoadedView::Document(initial_store())) == Ok::<Store, Error>(initial_store()),
{
    lemma_initial_store_wf();
}

/// Opening gives back exactly the documents that are well formed, as they
/// are.
pub proof fn lemma_open_keeps_document(s: Store)
    ensures
        store_wf(s) ==> open_result(LoadedView::Document(s)) == Ok::<Store, Error>(s),
        !store_wf(s) ==> open_result(LoadedView::Document(s)) == Err::<Store, Error>(
            Error::InvalidFormat,
        ),
        open_result(LoadedView::Document(s)) matches Ok(t) ==> store_wf(t),
{
}

/// In a well-formed store every parent is the id of a commit.
pub proof fn lemma_parents_exist(s: Store, i: int)
    requires
        store_wf(s),
        0 <= i < s.commits.len(),
        s.commits[i].parent_id is Some,
    ensures
        exists|j: int| 0 <= j < i && (#[trigger] s.commits[j]).id == s.commits[i].parent_id->0,
{
    let p = s.commits[i].parent_id->0;
    lemma_position(commit_ids(s.commits), p, 0);
    let j = position(commit_ids(s.commits), p, 0);
    assert(commit_ids(s.commits)[j] == s.commits[j].id);
}

/// In a well-formed store every branch holds the sentinel or the id of a
/// commit, and no two branches share a name.
pub proof fn lemma_branches_refer(s: Store, b: int)
    requires
        store_wf(s),
        0 <= b < s.branches.len(),
    ensures
        s.branches[b].commit_id == NO_COMMIT@ || exists|j: int|
            0 <= j < s.commits.len() && (#[trigger] s.commits[j]).id == s.branches[b].commit_id,
        forall|a: int|
            0 <= a < s.branches.len() && a != b ==> (#[trigger] s.branches[a]).name
                != s.branches[b].name,
{
    let id = s.branches[b].commit_id;
    if id != NO_COMMIT@ {
        lemma_position(commit_ids(s.commits), id, 0);
        let j = position(commit_ids(s.commits), id, 0);
        assert(commit_ids(s.commits)[j] == s.commits[j].id);
    }
    let names = branch_names(s.branches);
    assert forall|a: int| 0 <= a < s.branches.len() && a != b implies (#[trigger] s.branches[a]).name
        != s.branches[b].name by {
        lemma_position(names, s.branches[a].name, 0);
        lemma_position(names, s.branches[b].name, 0);
        assert(names[a] == s.branches[a].name);
        assert(names[b] == s.branches[b].name);
    }
}

/// In a well-formed store an attached HEAD names a branch and holds that
/// branch's commit id.
pub proof fn lemma_attached_head(s: Store)
    requires
        store_wf(s),
        !s.head.detached,
    ensures
        exists|b: int|
            0 <= b < s.branches.len() && (#[trigger] s.branches[b]).name == s.head.branch_name
                && s.branches[b].commit_id == s.head.commit_id,
{
    let names = branch_names(s.branches);
    lemma_position(names, s.head.branch_name, 0);
    let b = position(names, s.head.branch_name, 0);
    assert(names[b] == s.branches[b].name);
}

/// A checkout keeps the store well formed and changes nothing but HEAD.
pub proof fn lemma_checkout_wf(s: Store, query: Seq<char>)
    requires
        store_wf(s),
        checkout_result(s, query) is Ok,
    ensures
        store_wf(checkout_result(s, query)->Ok_0),
        checkout_result(s, query)->Ok_0.commits == s.commits,
        checkout_result(s, query)->Ok_0.branches == s.branches,
{
    let t = checkout_result(s, query)->Ok_0;
    let i = resolve(s, query)->Ok_0;
    let prefix = target(s, classify(s, query))->0;
    lemma_lookup(s.commits, prefix);
    assert(commit_ids(s.commits)[i] == s.commits[i].id);
    match classify(s, query) {
        Query::Head => {
            lemma_reference_lookup(s.commits, s.head.commit_id);
        },
        Query::Branch(name) => {
            let names = branch_names(s.branches);
            lemma_position(names, name, 0);
            let b = position(names, name, 0);
            assert(refers(s.commits, s.branches[b].commit_id));
            lemma_reference_lookup(s.commits, s.branches[b].commit_id);
        },
        Query::CommitId(_) => {},
        Query::Other(_) => {},
    }
}

/// After a successful checkout of a branch, HEAD is attached to that
/// branch and holds the branch's commit id.
pub proof fn lemma_checkout_branch(s: Store, name: Seq<char>)
    requires
        store_wf(s),
        has_branch(s.branches, name),
        name != HEAD_QUERY@,
        checkout_result(s, name) is Ok,
    ensures
        !checkout_result(s, name)->Ok_0.head.detached,
        checkout_result(s, name)->Ok_0.head.branch_name == name,
        checkout_result(s, name)->Ok_0.head.commit_id == branch_commit(
            checkout_result(s, name)->Ok_0.branches,
            name,
        ),
{
    let names = branch_names(s.branches);
    lemma_position(names, name, 0);
    let b = position(names, name, 0);
    assert(refers(s.commits, s.branches[b].commit_id));
    lemma_reference_lookup(s.commits, s.branches[b].commit_id);
}

/// A commit keeps the store well formed.
pub proof fn lemma_commit_wf(
    s: Store,
    message: Option<Seq<char>>,
    date: Seq<char>,
    id: Seq<char>,
)
    requires
        store_wf(s),
        is_commit_id(id),
        commit_result(s, message, date, id) is Ok,
    ensures
        store_wf(commit_result(s, message, date, id)->Ok_0),
        commit_result(s, message, date, id)->Ok_0.commits.len() == s.commits.len() + 1,
        commit_result(s, message, date, id)->Ok_0.commits.take(s.commits.len() as int)
            == s.commits,
{
    let t = commit_result(s, message, date, id)->Ok_0;
    let ids = commit_ids(s.commits);
    let n = s.commits.len() as int;
    assert(commit_ids(t.commits) =~= ids.push(id));
    assert(t.commits.take(n) =~= s.commits);
    lemma_sentinel_lookup(s.commits);
    lemma_position(ids, id, 0);
    assert forall|key: Seq<char>| #[trigger]
        position(ids.push(id), key, 0) == if position(ids, key, 0) < n {
            position(ids, key, 0)
        } else if id == key {
            n
        } else {
            n + 1
        } by {
        lemma_position_push(ids, id, key, 0);
    }
    assert forall|i: int| 0 <= i < t.commits.len() implies is_commit_id(
        (#[trigger] t.commits[i]).id,
    ) && position(commit_ids(t.commits), t.commits[i].id, 0) == i by {
        if i < n {
            assert(t.commits[i] == s.commits[i]);
        }
    }
    assert forall|i: int| 0 <= i < t.commits.len() implies ((#[trigger] t.commits[i]).parent_id
        matches Some(p) ==> position(commit_ids(t.commits), p, 0) < i) by {
        if i < n {
            assert(t.commits[i] == s.commits[i]);
        }
    }
    let names = branch_names(s.branches);
    let at = position(names, s.head.branch_name, 0);
    lemma_position(names, s.head.branch_name, 0);
    assert(branch_names(t.branches) =~= names);
    assert forall|b: int| 0 <= b < t.branches.len() implies refers(
        t.commits,
        (#[trigger] t.branches[b]).commit_id,
    ) && position(branch_names(t.branches), t.branches[b].name, 0) == b by {
        assert(t.branches[b].name == s.branches[b].name);
        if b != at {
            assert(t.branches[b] == s.branches[b]);
        }
    }
}

/// A commit followed by a checkout of `HEAD` leaves the store as the
/// commit left it.
pub proof fn lemma_commit_then_checkout_head(
    s: Store,
    message: Option<Seq<char>>,
    date: Seq<char>,
    id: Seq<char>,
)
    requires
        store_wf(s),
        is_commit_id(id),
        commit_result(s, message, date, id) is Ok,
    ensures
        checkout_result(commit_result(s, message, date, id)->Ok_0, HEAD_QUERY@) == Ok::<
            Store,
            Error,
        >(commit_result(s, message, date, id)->Ok_0),
{
    let t = commit_result(s, message, date, id)->Ok_0;
    lemma_commit_wf(s, message, date, id);
    reveal_strlit("none");
    assert(t.head.commit_id != NO_COMMIT@);
    lemma_reference_lookup(t.commits, t.head.commit_id);
    let i = position(commit_ids(t.commits), t.head.commit_id, 0);
    assert(classify(t, HEAD_QUERY@) == Query::Head);
    assert(resolve(t, HEAD_QUERY@) == Ok::<int, Error>(i));
    assert(checkout_result(t, HEAD_QUERY@)->Ok_0.head == t.head);
}

/// A commit on a detached HEAD is refused, whatever the rest.
pub proof fn lemma_commit_detached(
    s: Store,
    message: Option<Seq<char>>,
    date: Seq<char>,
    id: Seq<char>,
)
    requires
        s.head.detached,
    ensures
        commit_result(s, message, date, id) == Err::<Store, Error>(Error::DetachedHEAD),
{
}

/// A query that is neither `HEAD` nor the name of a branch, and with which
/// the ids of two commits begin, is ambiguous.
pub proof fn lemma_ambiguous_prefix(s: Store, query: Seq<char>, j: int, k: int)
    requires
        query != HEAD_QUERY@,
        !has_branch(s.branches, query),
        0 <= j < k < s.commits.len(),
        query.is_prefix_of(s.commits[j].id),
        query.is_prefix_of(s.commits[k].id),
    ensures
        resolve(s, query) == Err::<int, Error>(Error::AmbiguousQuery),
        checkout_result(s, query) == Err::<Store, Error>(Error::AmbiguousQuery),
{
    lemma_lookup(s.commits, query);
}

/// Creating a branch keeps the store well formed; creating one whose name
/// is taken is refused.
pub proof fn lemma_create_branch_wf(s: Store, name: Seq<char>)
    requires
        store_wf(s),
    ensures
        has_branch(s.branches, name) <==> create_branch_result(s, name) == Err::<Store, Error>(
            Error::BranchAlreadyExists,
        ),
        create_branch_result(s, name) matches Ok(t) ==> store_wf(t) && has_branch(
            t.branches,
            name,
        ) && branch_commit(t.branches, name) == s.head.commit_id,
{
    if !has_branch(s.branches, name) {
        let t = create_branch_result(s, name)->Ok_0;
        let names = branch_names(s.branches);
        let n = s.branches.len() as int;
        assert(branch_names(t.branches) =~= names.push(name));
        lemma_position(names, name, 0);
        assert forall|key: Seq<char>| #[trigger]
            position(names.push(name), key, 0) == if position(names, key, 0) < n {
                position(names, key, 0)
            } else if name == key {
                n
            } else {
                n + 1
            } by {
            lemma_position_push(names, name, key, 0);
        }
        assert forall|b: int| 0 <= b < t.branches.len() implies refers(
            t.commits,
            (#[trigger] t.branches[b]).commit_id,
        ) && position(branch_names(t.branches), t.branches[b].name, 0) == b by {
            if b < n {
                assert(t.branches[b] == s.branches[b]);
            }
        }
        if !s.head.detached {
            lemma_position(names, s.head.branch_name, 0);
            let at = position(names, s.head.branch_name, 0);
            assert(t.branches[at] == s.branches[at]);
        }
    }
}

/// Taking a key away moves every later key one place down and leaves the
/// earlier ones where they were.
pub proof fn lemma_position_remove(keys: Seq<Seq<char>>, at: int, key: Seq<char>, from: int)
    requires
        0 <= at < keys.len(),
        0 <= from < keys.len(),
        keys[at] != key,
    ensures
        position(keys.remove(at), key, from) == ({
            let p = position(
                keys,
                key,
                if from < at {
                    from
                } else {
                    from + 1
                },
            );
            if p < at {
                p
            } else {
                p - 1
            }
        }),
    decreases keys.len() - from,
{
    let removed = keys.remove(at);
    let start = if from < at {
        from
    } else {
        from + 1
    };
    lemma_position(keys, key, start);
    if from < removed.len() {
        assert(removed[from] == keys[start]);
        if removed[from] != key {
            if from + 1 < keys.len() {
                lemma_position_remove(keys, at, key, from + 1);
                if from + 1 == at {
                    assert(position(keys, key, from + 1) == position(keys, key, from + 2));
                }
            }
        }
    }
}

/// Deleting a branch keeps the store well formed and takes away that
/// branch alone; the branch that HEAD is attached to is never deleted.
pub proof fn lemma_delete_branch_wf(s: Store, name: Seq<char>)
    requires
        store_wf(s),
    ensures
        delete_branch_result(s, name) matches Ok(t) ==> store_wf(t) && !has_branch(
            t.branches,
            name,
        ) && t.branches.len() + 1 == s.branches.len() && t.head == s.head && t.commits
            == s.commits,
        !s.head.detached && s.head.branch_name == name ==> delete_branch_result(s, name) is Err,
{
    if delete_branch_result(s, name) is Ok {
        let t = delete_branch_result(s, name)->Ok_0;
        let names = branch_names(s.branches);
        lemma_position(names, name, 0);
        let at = position(names, name, 0);
        assert(branch_names(t.branches) =~= names.remove(at));
        assert forall|b: int| 0 <= b < s.branches.len() implies names[b] == (
        #[trigger] s.branches[b]).name by {}
        assert forall|b: int| 0 <= b < t.branches.len() implies refers(
            t.commits,
            (#[trigger] t.branches[b]).commit_id,
        ) && position(branch_names(t.branches), t.branches[b].name, 0) == b by {
            let was = if b < at {
                b
            } else {
                b + 1
            };
            assert(t.branches[b] == s.branches[was]);
            assert(position(names, s.branches[was].name, 0) == was);
            lemma_position_remove(names, at, s.branches[was].name, 0);
        }
        lemma_position(names.remove(at), name, 0);
        if has_branch(t.branches, name) {
            let b = position(names.remove(at), name, 0);
            let was = if b < at {
                b
            } else {
                b + 1
            };
            assert(names.remove(at)[b] == names[was]);
            assert(position(names, s.branches[was].name, 0) == was);
        }
        if !s.head.detached {
            let current = s.head.branch_name;
            lemma_position(names, current, 0);
            let was = position(names, current, 0);
            lemma_position_remove(names, at, current, 0);
            let now = position(names.remove(at), current, 0);
            assert(t.branches[now] == s.branches[was]);
        }
    }
}

/// Looking for a key among the first `n` keys finds it where it is found
/// among all keys, if that is among the first `n`.
pub proof fn lemma_position_take(keys: Seq<Seq<char>>, n: int, key: Seq<char>, from: int)
    requires
        0 <= from <= n <= keys.len(),
    ensures
        position(keys.take(n), key, from) == if position(keys, key, from) < n {
            position(keys, key, from)
        } else {
            n
        },
    decreases n - from,
{
    lemma_position(keys, key, from);
    if from < n {
        assert(keys.take(n)[from] == keys[from]);
        if keys[from] != key {
            lemma_position_take(keys, n, key, from + 1);
        }
    }
}

/// In a well-formed store the walk from a commit follows the parent
/// pointers: it starts at that commit, every commit in it is followed by
/// its parent, and it ends at a commit without parent.
pub proof fn lemma_ancestry_follows_parents(commits: Seq<CommitView>, i: int)
    requires
        commits_wf(commits),
        0 <= i < commits.len(),
    ensures
        ancestry(commits, i).len() >= 1,
        ancestry(commits, i)[0] == commits[i],
        forall|k: int|
            0 <= k < ancestry(commits, i).len() - 1 ==> (#[trigger] ancestry(commits, i)[k]).parent_id
                == Some(ancestry(commits, i)[k + 1].id),
        ancestry(commits, i).last().parent_id is None,
        forall|k: int|
            0 <= k < ancestry(commits, i).len() ==> has_commit(
                commits,
                (#[trigger] ancestry(commits, i)[k]).id,
            ),
    decreases i,
{
    let ids = commit_ids(commits);
    let h = ancestry(commits, i);
    assert(ids[i] == commits[i].id);
    match commits[i].parent_id {
        None => {
            assert(h =~= seq![commits[i]]);
        },
        Some(p) => {
            let j = position(ids, p, 0);
            lemma_position(ids, p, 0);
            lemma_position_take(ids, i, p, 0);
            assert(ids[j] == commits[j].id);
            lemma_ancestry_follows_parents(commits, j);
            let rest = ancestry(commits, j);
            assert(h =~= seq![commits[i]] + rest);
            assert forall|k: int| 0 <= k < h.len() - 1 implies (#[trigger] h[k]).parent_id == Some(
                h[k + 1].id,
            ) by {
                if k > 0 {
                    assert(h[k] == rest[k - 1]);
                    assert(h[k + 1] == rest[k]);
                } else {
                    assert(h[1] == rest[0]);
                }
            }
            assert(h.last() == rest.last());
            assert forall|k: int| 0 <= k < h.len() implies has_commit(
                commits,
                (#[trigger] h[k]).id,
            ) by {
                if k > 0 {
                    assert(h[k] == rest[k - 1]);
                }
            }
        },
    }
}

/// The history of a well-formed store starts at HEAD's commit and follows
/// the parent pointers to a commit without parent; there is none exactly
/// when HEAD holds the sentinel.
pub proof fn lemma_history_follows_parents(s: Store)
    requires
        store_wf(s),
    ensures
        s.head.commit_id == NO_COMMIT@ <==> history(s) == Err::<
            Seq<CommitView>,
            Error,
        >(Error::CommitNotFound),
        history(s) matches Ok(h) ==> h.len() >= 1 && h[0].id
            == s.head.commit_id && h.last().parent_id is None && forall|k: int|
            0 <= k < h.len() - 1 ==> (#[trigger] h[k]).parent_id == Some(h[k + 1].id),
        history(s) is Ok || history(s) == Err::<
            Seq<CommitView>,
            Error,
        >(Error::CommitNotFound),
{
    lemma_reference_lookup(s.commits, s.head.commit_id);
    if s.head.commit_id != NO_COMMIT@ {
        let i = position(commit_ids(s.commits), s.head.commit_id, 0);
        lemma_position(commit_ids(s.commits), s.head.commit_id, 0);
        lemma_ancestry_follows_parents(s.commits, i);
    }
}

} // verus!
