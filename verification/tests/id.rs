use orca::container::id::{find_subordinate_range, IdMappingError, IdSource, IdType, MappingId};

fn source(subuid: Option<&str>, subgid: Option<&str>, user: Option<&str>) -> IdSource {
    IdSource {
        euid: 1000,
        egid: 100,
        user: user.map(|s| s.to_string()),
        subuid: subuid.map(|s| s.to_string()),
        subgid: subgid.map(|s| s.to_string()),
    }
}

#[test]
fn effective_ids_map_to_root() {
    let s = source(None, None, None);
    let uid = MappingId::new(IdType::Uid, &s).unwrap();
    assert_eq!(uid.to_string(), "0 1000 1");
    assert_eq!(uid.into_vec(), vec!["0", "1000", "1"]);
    let gid = MappingId::new(IdType::Gid, &s).unwrap();
    assert_eq!(gid.to_string(), "0 100 1");
    assert_eq!(gid.into_vec(), vec!["0", "100", "1"]);
}

#[test]
fn subordinate_ids_map_from_one() {
    let s = source(
        Some("root:1:1\nalice:100000:65536\n"),
        Some("alice:300000:1000\n"),
        Some("alice"),
    );
    let subuid = MappingId::new(IdType::SubUid, &s).unwrap();
    assert_eq!(subuid.to_string(), "1 100000 65536");
    assert_eq!(subuid.into_vec(), vec!["1", "100000", "65536"]);
    let subgid = MappingId::new(IdType::SubGid, &s).unwrap();
    assert_eq!(subgid.to_string(), "1 300000 1000");
}

#[test]
fn first_entry_of_the_user_wins() {
    assert_eq!(
        find_subordinate_range("alice:1:2\nalice:3:4\n", "alice"),
        Ok((1, 2))
    );
    assert_eq!(
        find_subordinate_range("al:9:9\nalice2:8:8\nalice:3:4", "alice"),
        Ok((3, 4))
    );
}

#[test]
fn extra_fields_are_ignored() {
    assert_eq!(find_subordinate_range("alice:5:6:7", "alice"), Ok((5, 6)));
}

#[test]
fn missing_file_is_reported() {
    let s = source(None, None, Some("alice"));
    assert_eq!(
        MappingId::new(IdType::SubUid, &s).err(),
        Some(IdMappingError::MissingFile)
    );
    assert_eq!(
        MappingId::new(IdType::SubGid, &s).err(),
        Some(IdMappingError::MissingFile)
    );
}

#[test]
fn missing_user_is_reported() {
    let s = source(Some("alice:1:2"), Some("alice:1:2"), None);
    assert_eq!(
        MappingId::new(IdType::SubUid, &s).err(),
        Some(IdMappingError::MissingUser)
    );
}

#[test]
fn absent_entry_is_reported() {
    let s = source(Some("bob:1:2\ncarol:3:4\n"), Some(""), Some("alice"));
    assert_eq!(
        MappingId::new(IdType::SubUid, &s).err(),
        Some(IdMappingError::NoUserEntry)
    );
    assert_eq!(
        MappingId::new(IdType::SubGid, &s).err(),
        Some(IdMappingError::NoUserEntry)
    );
}

#[test]
fn malformed_entries_are_reported() {
    for text in ["alice:1", "alice", "alice:x:2", "alice:1:y", "alice::", "alice:1:-2"] {
        assert_eq!(
            find_subordinate_range(text, "alice"),
            Err(IdMappingError::Malformed),
            "on {:?}",
            text
        );
    }
    assert_eq!(
        find_subordinate_range("alice:99999999999999999999:1", "alice"),
        Err(IdMappingError::Malformed)
    );
}
