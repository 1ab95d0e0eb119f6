//! Identity mappings for a user namespace: one range of ids inside the
//! namespace and the range outside that it stands for.

use crate::text::{
    chars_of, decimal, decimal_string, parse_u64, parsed_u64, push_decimal, same_chars, split,
    split_chars, strings, text_of, texts,
};
use vstd::prelude::*;

verus! {

/// Which mapping is asked for.
#[derive(Clone, Copy, Debug, PartialEq, Eq, Structural)]
pub enum IdType {
    /// The effective user id, mapped to root.
    Uid,
    /// The effective group id, mapped to root.
    Gid,
    /// The user's subordinate user ids, mapped from 1 upwards.
    SubUid,
    /// The user's subordinate group ids, mapped from 1 upwards.
    SubGid,
}

/// Why a mapping cannot be had.
#[derive(Clone, Copy, Debug, PartialEq, Eq, Structural)]
pub enum IdMappingError {
    /// The file of subordinate ids could not be read.
    MissingFile,
    /// The user's name is not known.
    MissingUser,
    /// The file has no entry for the user.
    NoUserEntry,
    /// The user's entry lacks a field, or a field is no number.
    Malformed,
}

/// What the caller read from the system for the mappings.
pub struct IdSource {
    /// The effective user id.
    pub euid: u32,
    /// The effective group id.
    pub egid: u32,
    /// The user's name, if known.
    pub user: Option<String>,
    /// The text of the file of subordinate user ids, if it could be read.
    pub subuid: Option<String>,
    /// The text of the file of subordinate group ids, if it could be read.
    pub subgid: Option<String>,
}

/// A mapping as three numbers.
pub struct Mapping {
    /// The first id inside the namespace.
    pub target_id: nat,
    /// The first id outside the namespace.
    pub source_id: nat,
    /// How many ids are mapped.
    pub range: nat,
}

/// The index, at or after `from`, of the first line whose first field is
/// `user`, or the number of lines where there is none.
pub open spec fn entry_from(lines: Seq<Seq<char>>, user: Seq<char>, from: int) -> int
    decreases lines.len() - from,
{
    if from >= lines.len() {
        lines.len() as int
    } else if split(lines[from], ':')[0] == user {
        from
    } else {
        entry_from(lines, user, from + 1)
    }
}

/// The start and the length of the range that the text of a file of
/// subordinate ids gives to `user`: the second and third fields of the first
/// line whose first field is the user's name.
pub open spec fn subordinate_range(contents: Seq<char>, user: Seq<char>) -> Result<
    (u64, u64),
    IdMappingError,
> {
    let lines = split(contents, '\n');
    let at = entry_from(lines, user, 0);
    if at >= lines.len() {
        Err(IdMappingError::NoUserEntry)
    } else {
        let fields = split(lines[at], ':');
        if fields.len() < 3 {
            Err(IdMappingError::Malformed)
        } else {
            match (parsed_u64(fields[1]), parsed_u64(fields[2])) {
                (Some(start), Some(count)) => Ok((start, count)),
                _ => Err(IdMappingError::Malformed),
            }
        }
    }
}

/// The mapping of a subordinate range, which starts at id 1 inside.
pub open spec fn subordinate_mapping(
    contents: Option<Seq<char>>,
    user: Option<Seq<char>>,
) -> Result<Mapping, IdMappingError> {
    match contents {
        None => Err(IdMappingError::MissingFile),
        Some(text) => match user {
            None => Err(IdMappingError::MissingUser),
            Some(name) => match subordinate_range(text, name) {
                Ok((start, count)) => Ok(
                    Mapping { target_id: 1, source_id: start as nat, range: count as nat },
                ),
                Err(e) => Err(e),
            },
        },
    }
}

/// The mapping of kind `idtype` for a process that read `source`.
pub open spec fn mapping_for(idtype: IdType, source: IdSource) -> Result<Mapping, IdMappingError> {
    match idtype {
        IdType::Uid => Ok(Mapping { target_id: 0, source_id: source.euid as nat, range: 1 }),
        IdType::Gid => Ok(Mapping { target_id: 0, source_id: source.egid as nat, range: 1 }),
        IdType::SubUid => subordinate_mapping(text_of(source.subuid), text_of(source.user)),
        IdType::SubGid => subordinate_mapping(text_of(source.subgid), text_of(source.user)),
    }
}

/// The line of a map file: the three numbers, a space between them.
pub open spec fn map_line(m: Mapping) -> Seq<char> {
    decimal(m.target_id).push(' ') + decimal(m.source_id).push(' ') + decimal(m.range)
}

/// The three numbers as separate words.
pub open spec fn map_words(m: Mapping) -> Seq<Seq<char>> {
    seq![decimal(m.target_id), decimal(m.source_id), decimal(m.range)]
}

/// Looks up the range of `user` in the text of a file of subordinate ids.
pub fn find_subordinate_range(contents: &str, user: &str) -> (r: Result<
    (u64, u64),
    IdMappingError,
>)
    ensures
        r == subordinate_range(contents@, user@),
{
    let text = chars_of(contents);
    let name = chars_of(user);
    let lines = split_chars(&text, '\n');
    let mut i: usize = 0;
    while i < lines.len()
        invariant
            i <= lines.len(),
            name@ == user@,
            texts(lines@) == split(contents@, '\n'),
            entry_from(texts(lines@), user@, 0) == entry_from(texts(lines@), user@, i as int),
        decreases lines.len() - i,
    {
        let fields = split_chars(&lines[i], ':');
        assert(texts(lines@)[i as int] == lines@[i as int]@);
        proof {
            crate::text::lemma_split_nonempty(lines@[i as int]@, ':');
        }
        assert(texts(fields@)[0] == fields@[0]@);
        if same_chars(&fields[0], &name) {
            if fields.len() < 3 {
                return Err(IdMappingError::Malformed);
            }
            assert(texts(fields@)[1] == fields@[1]@);
            assert(texts(fields@)[2] == fields@[2]@);
            let start = parse_u64(&fields[1]);
            let count = parse_u64(&fields[2]);
            return match (start, count) {
                (Some(a), Some(b)) => Ok((a, b)),
                _ => Err(IdMappingError::Malformed),
            };
        }
        i += 1;
    }
    Err(IdMappingError::NoUserEntry)
}

/// One identity mapping.
#[derive(Clone, Copy, Debug)]
pub struct MappingId {
    source_id: u64,
    target_id: u64,
    range: u64,
}

impl View for MappingId {
    type V = Mapping;

    closed spec fn view(&self) -> Mapping {
        Mapping {
            target_id: self.target_id as nat,
            source_id: self.source_id as nat,
            range: self.range as nat,
        }
    }
}

impl MappingId {
    /// The mapping of kind `idtype`, from what was read from the system.
    /// The effective ids map to root, one id each; a subordinate range maps
    /// from id 1, and is the one that the first entry of the user gives.
    pub fn new(idtype: IdType, source: &IdSource) -> (r: Result<Self, IdMappingError>)
        ensures
            match mapping_for(idtype, *source) {
                Ok(m) => r matches Ok(id) && id@ == m,
                Err(e) => r == Err::<Self, IdMappingError>(e),
            },
    {
        match idtype {
            IdType::Uid => Ok(MappingId { source_id: source.euid as u64, target_id: 0, range: 1 }),
            IdType::Gid => Ok(MappingId { source_id: source.egid as u64, target_id: 0, range: 1 }),
            IdType::SubUid => Self::subordinate(&source.subuid, &source.user),
            IdType::SubGid => Self::subordinate(&source.subgid, &source.user),
        }
    }

    fn subordinate(contents: &Option<String>, user: &Option<String>) -> (r: Result<
        Self,
        IdMappingError,
    >)
        ensures
            match subordinate_mapping(text_of(*contents), text_of(*user)) {
                Ok(m) => r matches Ok(id) && id@ == m,
                Err(e) => r == Err::<Self, IdMappingError>(e),
            },
    {
        match contents {
            None => Err(IdMappingError::MissingFile),
            Some(text) => match user {
                None => Err(IdMappingError::MissingUser),
                Some(name) => match find_subordinate_range(text.as_str(), name.as_str()) {
                    Ok((start, count)) => Ok(
                        MappingId { source_id: start, target_id: 1, range: count },
                    ),
                    Err(e) => Err(e),
                },
            },
        }
    }

    /// The three numbers as words, for the helper programs' arguments.
    pub fn into_vec(self) -> (words: Vec<String>)
        ensures
            strings(words@) == map_words(self@),
    {
        let mut words: Vec<String> = Vec::new();
        words.push(decimal_string(self.target_id));
        words.push(decimal_string(self.source_id));
        words.push(decimal_string(self.range));
        assert(strings(words@) =~= map_words(self@));
        words
    }

    /// The line to write to a map file.
    pub fn to_string(&self) -> (line: String)
        ensures
            line@ == map_line(self@),
    {
        let mut line = String::new();
        push_decimal(&mut line, self.target_id);
        line.push(' ');
        push_decimal(&mut line, self.source_id);
        line.push(' ');
        push_decimal(&mut line, self.range);
        assert(line@ =~= map_line(self@));
        line
    }
}

} // verus!
