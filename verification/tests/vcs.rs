use orca::digest::sha1_hex_of;
use orca::vcs::{
    create_commit_query_from, get_commit_id_from_query, has_id_form, Branch, Commit,
    CommitQuery, CommitsData, Error, Head, Loaded, VCS,
};

const PATH: &str = "/env/commits.toml";

fn date(n: u32) -> String {
    format!("2024-05-01 10:00:{:02}.000000000 +09:00", n)
}

fn id_of(n: u32) -> String {
    sha1_hex_of(&date(n)).unwrap()
}

fn store_with(n: u32) -> VCS {
    let mut vcs = VCS::init(PATH);
    for i in 0..n {
        vcs.commit(Some(format!("m{}", i)), &date(i)).unwrap();
    }
    vcs
}

fn names(data: &CommitsData) -> Vec<(String, String)> {
    data.branches
        .iter()
        .map(|b| (b.name.clone(), b.commit_id.clone()))
        .collect()
}

fn head(data: &CommitsData) -> (String, String, bool) {
    (
        data.head.branch_name.clone(),
        data.head.commit_id.clone(),
        data.head.detached,
    )
}

fn reopen(data: CommitsData) -> Result<VCS, Error> {
    VCS::new(PATH, Loaded::Document(data))
}

fn commit(id: &str, parent: Option<&str>) -> Commit {
    Commit {
        id: id.to_string(),
        parent_id: parent.map(|p| p.to_string()),
        date: "d".to_string(),
        message: None,
    }
}

fn document(commits: Vec<Commit>, head: (&str, &str, bool), branches: Vec<(&str, &str)>) -> CommitsData {
    CommitsData {
        commits,
        head: Head {
            branch_name: head.0.to_string(),
            commit_id: head.1.to_string(),
            detached: head.2,
        },
        branches: branches
            .into_iter()
            .map(|(n, c)| Branch { name: n.to_string(), commit_id: c.to_string() })
            .collect(),
    }
}

const A: &str = "aaaaaaaaaaaaaaaaaaaaaaaaaaaaaaaaaaaaaaaa";
const B: &str = "bbbbbbbbbbbbbbbbbbbbbbbbbbbbbbbbbbbbbbbb";
const AB: &str = "abbbbbbbbbbbbbbbbbbbbbbbbbbbbbbbbbbbbbbb";

#[test]
fn init_gives_main_without_commit() {
    let vcs = VCS::init(PATH);
    let data = vcs.document();
    assert!(data.commits.is_empty());
    assert_eq!(head(&data), ("main".to_string(), "none".to_string(), false));
    assert_eq!(names(&data), vec![("main".to_string(), "none".to_string())]);
    assert_eq!(vcs.commits_file_path(), PATH);
    assert_eq!(vcs.get_current_branch(), "main");
    assert_eq!(vcs.get_all_branches(), vec!["main"]);
    assert!(!vcs.is_detached());
}

#[test]
fn init_then_open_gives_the_same_store() {
    let fresh = VCS::init(PATH);
    let opened = reopen(fresh.document()).unwrap();
    let (a, b) = (fresh.document(), opened.document());
    assert_eq!(head(&a), head(&b));
    assert_eq!(names(&a), names(&b));
    assert_eq!(a.commits.len(), b.commits.len());
    assert_eq!(opened.commits_file_path(), PATH);
}

#[test]
fn open_maps_what_was_read_to_errors() {
    assert_eq!(VCS::new(PATH, Loaded::Missing).err(), Some(Error::NotInitialized));
    assert_eq!(
        VCS::new(PATH, Loaded::Unreadable).err(),
        Some(Error::FileOperationError)
    );
    assert_eq!(VCS::new(PATH, Loaded::Malformed).err(), Some(Error::InvalidFormat));
}

#[test]
fn open_accepts_a_well_formed_document() {
    let d = document(
        vec![commit(A, None), commit(B, Some(A))],
        ("main", B, false),
        vec![("main", B), ("old", A), ("empty", "none")],
    );
    assert!(d.is_valid());
    let vcs = reopen(d).unwrap();
    assert_eq!(vcs.get_all_branches(), vec!["main", "old", "empty"]);
}

#[test]
fn open_refuses_documents_that_are_not_well_formed() {
    let cases = vec![
        // a commit id that is no id
        document(vec![commit("xyz", None)], ("main", "none", false), vec![("main", "none")]),
        // an id in upper case
        document(
            vec![commit(&A.to_uppercase(), None)],
            ("main", "none", false),
            vec![("main", "none")],
        ),
        // the same id twice
        document(
            vec![commit(A, None), commit(A, None)],
            ("main", A, false),
            vec![("main", A)],
        ),
        // a parent that does not exist
        document(vec![commit(A, Some(B))], ("main", A, false), vec![("main", A)]),
        // a parent that comes later
        document(
            vec![commit(A, Some(B)), commit(B, None)],
            ("main", B, false),
            vec![("main", B)],
        ),
        // a commit that is its own parent
        document(vec![commit(A, Some(A))], ("main", A, false), vec![("main", A)]),
        // a branch that points nowhere
        document(vec![commit(A, None)], ("main", A, false), vec![("main", A), ("x", B)]),
        // two branches of one name
        document(
            vec![commit(A, None)],
            ("main", A, false),
            vec![("main", A), ("main", "none")],
        ),
        // HEAD on a branch that does not exist
        document(vec![commit(A, None)], ("gone", A, false), vec![("main", A)]),
        // HEAD that disagrees with its branch
        document(
            vec![commit(A, None), commit(B, Some(A))],
            ("main", A, false),
            vec![("main", B)],
        ),
        // a detached HEAD that points nowhere
        document(vec![commit(A, None)], ("main", B, true), vec![("main", A)]),
        // the former sentinel
        document(vec![], ("main", "None", false), vec![("main", "None")]),
    ];
    for (i, d) in cases.into_iter().enumerate() {
        assert!(!d.is_valid(), "case {}", i);
        assert_eq!(reopen(d).err(), Some(Error::InvalidFormat), "case {}", i);
    }
}

#[test]
fn open_accepts_a_detached_head_on_a_commit() {
    let d = document(
        vec![commit(A, None), commit(B, Some(A))],
        ("main", A, true),
        vec![("main", B)],
    );
    let vcs = reopen(d).unwrap();
    assert!(vcs.is_detached());
}

#[test]
fn commit_id_is_the_sha1_of_the_date() {
    let c = Commit::new(None, Some("x".to_string()), "2024-05-01 10:00:00 +09:00").unwrap();
    assert_eq!(c.id, sha1_hex_of("2024-05-01 10:00:00 +09:00").unwrap());
    assert_eq!(c.date, "2024-05-01 10:00:00 +09:00");
    assert_eq!(c.message, Some("x".to_string()));
    assert_eq!(c.parent_id, None);
    assert!(has_id_form(&c.id));
    let c = Commit::new(Some(A.to_string()), None, "abc").unwrap();
    assert_eq!(c.id, "a9993e364706816aba3e25717850c26c9cd0d89d");
    assert_eq!(c.parent_id, Some(A.to_string()));
    let d = c.duplicate();
    assert_eq!((d.id, d.parent_id, d.date, d.message), (c.id, c.parent_id, c.date, c.message));
}

#[test]
fn id_form_is_forty_lowercase_hex_digits() {
    assert!(has_id_form(A));
    assert!(has_id_form("0123456789abcdef0123456789abcdef01234567"));
    assert!(!has_id_form("0123456789abcdef0123456789abcdef0123456"));
    assert!(!has_id_form("0123456789abcdef0123456789abcdef012345678"));
    assert!(!has_id_form("0123456789ABCDEF0123456789abcdef01234567"));
    assert!(!has_id_form("g123456789abcdef0123456789abcdef01234567"));
    assert!(!has_id_form("none"));
    assert!(!has_id_form(""));
}

#[test]
fn first_commit_has_no_parent_and_moves_branch_and_head() {
    let mut vcs = VCS::init(PATH);
    let c = vcs.commit(Some("x".to_string()), &date(0)).unwrap();
    assert_eq!(c.id, id_of(0));
    assert_eq!(c.id.len(), 40);
    assert_eq!(c.parent_id, None);
    assert_eq!(c.message, Some("x".to_string()));
    let data = vcs.document();
    assert_eq!(data.commits.len(), 1);
    assert_eq!(head(&data), ("main".to_string(), id_of(0), false));
    assert_eq!(names(&data), vec![("main".to_string(), id_of(0))]);
}

#[test]
fn later_commits_have_the_current_commit_as_parent() {
    let mut vcs = store_with(2);
    let c = vcs.commit(None, &date(2)).unwrap();
    assert_eq!(c.parent_id, Some(id_of(1)));
    assert_eq!(c.message, None);
    let data = vcs.document();
    let ids: Vec<String> = data.commits.iter().map(|c| c.id.clone()).collect();
    assert_eq!(ids, vec![id_of(0), id_of(1), id_of(2)]);
    assert_eq!(data.commits[1].parent_id, Some(id_of(0)));
    assert_eq!(head(&data).1, id_of(2));
}

#[test]
fn every_parent_is_an_earlier_commit() {
    let vcs = store_with(6);
    let data = vcs.document();
    for (i, c) in data.commits.iter().enumerate() {
        if let Some(p) = &c.parent_id {
            assert!(data.commits[..i].iter().any(|e| &e.id == p));
        }
    }
    assert!(data.is_valid());
}

#[test]
fn every_branch_points_at_a_commit_or_holds_the_sentinel() {
    let mut vcs = VCS::init(PATH);
    vcs.create_branch("early").unwrap();
    vcs.commit(None, &date(0)).unwrap();
    vcs.create_branch("late").unwrap();
    let data = vcs.document();
    for b in &data.branches {
        assert!(b.commit_id == "none" || data.commits.iter().any(|c| c.id == b.commit_id));
    }
    assert_eq!(
        names(&data),
        vec![
            ("main".to_string(), id_of(0)),
            ("early".to_string(), "none".to_string()),
            ("late".to_string(), id_of(0)),
        ]
    );
}

#[test]
fn attached_head_agrees_with_its_branch() {
    let mut vcs = store_with(2);
    vcs.create_branch("feature").unwrap();
    vcs.checkout("feature").unwrap();
    vcs.commit(None, &date(7)).unwrap();
    let data = vcs.document();
    assert!(!data.head.detached);
    let b = data.branches.iter().find(|b| b.name == data.head.branch_name).unwrap();
    assert_eq!(b.commit_id, data.head.commit_id);
    assert_eq!(data.head.commit_id, id_of(7));
}

#[test]
fn commit_with_a_colliding_date_is_refused() {
    let mut vcs = store_with(2);
    let before = vcs.document();
    assert_eq!(vcs.commit(None, &date(0)).err(), Some(Error::IdCollision));
    let after = vcs.document();
    assert_eq!(after.commits.len(), before.commits.len());
    assert_eq!(head(&after), head(&before));
}

#[test]
fn commit_on_detached_head_is_refused_and_changes_nothing() {
    let mut vcs = store_with(2);
    vcs.checkout(&id_of(0)).unwrap();
    let before = vcs.document();
    assert_eq!(
        vcs.commit(Some("x".to_string()), &date(9)).err(),
        Some(Error::DetachedHEAD)
    );
    let after = vcs.document();
    assert_eq!(after.commits.len(), 2);
    assert_eq!(head(&after), head(&before));
    assert_eq!(names(&after), names(&before));
}

#[test]
fn log_follows_parents_from_head() {
    let vcs = store_with(3);
    let log = vcs.get_current_commits().unwrap().collect();
    let ids: Vec<String> = log.iter().map(|c| c.id.clone()).collect();
    assert_eq!(ids, vec![id_of(2), id_of(1), id_of(0)]);
    let messages: Vec<Option<String>> = log.iter().map(|c| c.message.clone()).collect();
    assert_eq!(
        messages,
        vec![Some("m2".to_string()), Some("m1".to_string()), Some("m0".to_string())]
    );
}

#[test]
fn log_can_be_walked_one_commit_at_a_time() {
    let vcs = store_with(2);
    let mut walk = vcs.get_current_commits().unwrap();
    assert_eq!(walk.next().unwrap().id, id_of(1));
    assert_eq!(walk.next().unwrap().id, id_of(0));
    assert!(walk.next().is_none());
    assert!(walk.next().is_none());
}

#[test]
fn log_of_a_store_without_commit_is_commit_not_found() {
    let vcs = VCS::init(PATH);
    assert_eq!(vcs.get_current_commits().err(), Some(Error::CommitNotFound));
}

#[test]
fn create_branch_starts_at_the_current_commit() {
    let mut vcs = store_with(1);
    vcs.create_branch("feature").unwrap();
    assert_eq!(vcs.get_all_branches(), vec!["main", "feature"]);
    assert_eq!(names(&vcs.document())[1], ("feature".to_string(), id_of(0)));
    assert_eq!(vcs.get_current_branch(), "main");
}

#[test]
fn create_branch_with_an_existing_name_is_refused() {
    let mut vcs = store_with(1);
    assert_eq!(vcs.create_branch("main").err(), Some(Error::BranchAlreadyExists));
    vcs.create_branch("feature").unwrap();
    assert_eq!(vcs.create_branch("feature").err(), Some(Error::BranchAlreadyExists));
    assert_eq!(vcs.get_all_branches(), vec!["main", "feature"]);
}

#[test]
fn delete_branch_removes_that_branch_alone() {
    let mut vcs = store_with(1);
    vcs.create_branch("a").unwrap();
    vcs.create_branch("b").unwrap();
    vcs.delete_branch("a").unwrap();
    assert_eq!(vcs.get_all_branches(), vec!["main", "b"]);
    assert_eq!(vcs.delete_branch("a").err(), Some(Error::BranchNotFound));
    assert_eq!(vcs.delete_branch("main").err(), Some(Error::CurrentBranch));
    assert_eq!(vcs.get_all_branches(), vec!["main", "b"]);
    assert!(vcs.document().is_valid());
}

#[test]
fn delete_branch_of_a_detached_head_is_allowed() {
    let mut vcs = store_with(1);
    vcs.create_branch("b").unwrap();
    vcs.checkout(&id_of(0)[..8]).unwrap();
    vcs.delete_branch("main").unwrap();
    assert_eq!(vcs.get_all_branches(), vec!["b"]);
    assert!(vcs.document().is_valid());
}

#[test]
fn checkout_of_a_branch_attaches_head_to_it() {
    let mut vcs = store_with(1);
    vcs.create_branch("feature").unwrap();
    vcs.commit(None, &date(1)).unwrap();
    vcs.checkout("feature").unwrap();
    assert_eq!(head(&vcs.document()), ("feature".to_string(), id_of(0), false));
    assert_eq!(vcs.get_current_branch(), "feature");
    vcs.checkout("main").unwrap();
    assert_eq!(head(&vcs.document()), ("main".to_string(), id_of(1), false));
}

#[test]
fn checkout_of_a_commit_detaches_head() {
    let mut vcs = store_with(2);
    vcs.checkout(&id_of(0)).unwrap();
    assert_eq!(head(&vcs.document()), ("main".to_string(), id_of(0), true));
    assert!(vcs.is_detached());
    vcs.checkout("main").unwrap();
    assert_eq!(head(&vcs.document()), ("main".to_string(), id_of(1), false));
}

#[test]
fn checkout_of_a_branch_without_commit_finds_nothing() {
    let mut vcs = VCS::init(PATH);
    assert_eq!(vcs.checkout("main").err(), Some(Error::CommitNotFound));
    assert_eq!(vcs.checkout("HEAD").err(), Some(Error::CommitNotFound));
    assert_eq!(vcs.checkout("abc").err(), Some(Error::CommitNotFound));
    assert_eq!(head(&vcs.document()), ("main".to_string(), "none".to_string(), false));
}

#[test]
fn commit_then_checkout_head_changes_nothing() {
    let mut vcs = store_with(1);
    vcs.commit(None, &date(1)).unwrap();
    let before = vcs.document();
    vcs.checkout("HEAD").unwrap();
    let after = vcs.document();
    assert_eq!(head(&after), head(&before));
    assert_eq!(names(&after), names(&before));
    assert_eq!(after.commits.len(), before.commits.len());
}

#[test]
fn checkout_head_keeps_a_detached_head_detached() {
    let mut vcs = store_with(2);
    vcs.checkout(&id_of(0)).unwrap();
    vcs.checkout("HEAD").unwrap();
    assert_eq!(head(&vcs.document()), ("main".to_string(), id_of(0), true));
}

#[test]
fn checkout_with_an_ambiguous_prefix_is_refused() {
    let d = document(
        vec![commit(A, None), commit(AB, Some(A)), commit(B, Some(AB))],
        ("main", B, false),
        vec![("main", B)],
    );
    let mut vcs = reopen(d).unwrap();
    assert_eq!(vcs.checkout("a").err(), Some(Error::AmbiguousQuery));
    assert_eq!(vcs.checkout("").err(), Some(Error::AmbiguousQuery));
    assert_eq!(head(&vcs.document()), ("main".to_string(), B.to_string(), false));
    vcs.checkout("ab").unwrap();
    assert_eq!(head(&vcs.document()), ("main".to_string(), AB.to_string(), true));
    vcs.checkout("aa").unwrap();
    assert_eq!(head(&vcs.document()).1, A);
    vcs.checkout("b").unwrap();
    assert_eq!(head(&vcs.document()), ("main".to_string(), B.to_string(), true));
    assert_eq!(vcs.checkout("c").err(), Some(Error::CommitNotFound));
}

#[test]
fn some_prefix_is_ambiguous_among_seventeen_commits() {
    let mut vcs = store_with(17);
    let ids: Vec<String> = vcs.document().commits.iter().map(|c| c.id.clone()).collect();
    let shared = "0123456789abcdef"
        .chars()
        .find(|c| ids.iter().filter(|id| id.starts_with(*c)).count() >= 2)
        .unwrap();
    assert_eq!(
        vcs.checkout(&shared.to_string()).err(),
        Some(Error::AmbiguousQuery)
    );
}

#[test]
fn a_branch_name_is_tried_before_a_commit_id() {
    let d = document(
        vec![commit(A, None), commit(B, Some(A))],
        ("main", B, false),
        vec![("main", B), ("a", B)],
    );
    let mut vcs = reopen(d).unwrap();
    vcs.checkout("a").unwrap();
    assert_eq!(head(&vcs.document()), ("a".to_string(), B.to_string(), false));
}

#[test]
fn queries_are_read_in_order() {
    let data = store_with(1).document();
    assert!(create_commit_query_from("HEAD", &data).is_head());
    assert!(create_commit_query_from("main", &data).is_tag());
    assert!(create_commit_query_from("mai", &data).is_commit());
    assert!(create_commit_query_from("head", &data).is_commit());
    let q = CommitQuery::Other("main".to_string());
    assert!(!q.is_head() && !q.is_tag() && !q.is_commit());
}

#[test]
fn query_targets() {
    let data = store_with(1).document();
    assert_eq!(get_commit_id_from_query(&data, &CommitQuery::HEAD), Some(id_of(0)));
    assert_eq!(
        get_commit_id_from_query(&data, &CommitQuery::Branch("main".to_string())),
        Some(id_of(0))
    );
    assert_eq!(
        get_commit_id_from_query(&data, &CommitQuery::Branch("gone".to_string())),
        None
    );
    assert_eq!(
        get_commit_id_from_query(&data, &CommitQuery::CommitID("ab".to_string())),
        Some("ab".to_string())
    );
    assert_eq!(
        get_commit_id_from_query(&data, &CommitQuery::Other("main".to_string())),
        Some(id_of(0))
    );
    assert_eq!(
        get_commit_id_from_query(&data, &CommitQuery::Other("ab".to_string())),
        Some("ab".to_string())
    );
    assert_eq!(data.get_commit_by(&CommitQuery::HEAD), Ok(0));
    assert_eq!(
        data.get_commit_by(&CommitQuery::Branch("gone".to_string())),
        Err(Error::CommitNotFound)
    );
    assert_eq!(data.get_current_branch(), Some(0));
    assert_eq!(data.find_commit(&id_of(0)[..5]), Ok(0));
}

#[test]
fn error_messages() {
    assert_eq!(Error::NotInitialized.message(), "Not initialized");
    assert_eq!(Error::DetachedHEAD.message(), "Cannot commit with detached HEAD");
    assert_eq!(
        Error::BranchAlreadyExists.message(),
        "Specified branch name already exists"
    );
    assert_eq!(Error::CommitNotFound.message(), "Specified commit was not found");
    assert_eq!(
        Error::AmbiguousQuery.message(),
        "Specified commit id matches more than one commits"
    );
    assert_eq!(Error::InvalidFormat.message(), "Commits files is invalid format");
    assert_eq!(
        Error::FileOperationError.message(),
        "Cannot operate to commits file"
    );
}

#[test]
fn store_stays_well_formed_through_a_session() {
    let mut vcs = store_with(3);
    vcs.create_branch("f").unwrap();
    vcs.checkout("f").unwrap();
    vcs.commit(None, &date(10)).unwrap();
    vcs.checkout(&id_of(1)).unwrap();
    vcs.checkout("main").unwrap();
    vcs.commit(None, &date(11)).unwrap();
    vcs.delete_branch("f").unwrap();
    vcs.valid();
    let data = vcs.document();
    assert!(data.is_valid());
    assert!(reopen(data.duplicate()).is_ok());
}
