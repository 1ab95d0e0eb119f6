//! A program to be run on the host, such as a mapping helper.

use crate::text::{
    chars_of, copy_text, join_path, joined, split, split_chars, string_of, strings, texts,
};
use vstd::prelude::*;

verus! {

/// A program and its arguments.
pub struct Command {
    cmd_name: String,
    args: Option<Vec<String>>,
}

/// The value of a command.
pub struct CommandView {
    pub cmd_name: Seq<char>,
    pub args: Option<Seq<Seq<char>>>,
}

/// The places where a program of name `name` may be found, in the order
/// of the directories of the search path `path`.
pub open spec fn search_candidates(path: Seq<char>, name: Seq<char>) -> Seq<Seq<char>> {
    Seq::new(split(path, ':').len(), |i: int| joined(split(path, ':')[i], name))
}

/// The arguments with which a command is run.
pub open spec fn command_arguments(c: CommandView) -> Seq<Seq<char>> {
    match c.args {
        Some(args) => args,
        None => seq![],
    }
}

impl View for Command {
    type V = CommandView;

    closed spec fn view(&self) -> CommandView {
        CommandView {
            cmd_name: self.cmd_name@,
            args: match self.args {
                Some(v) => Some(strings(v@)),
                None => None,
            },
        }
    }
}

impl Command {
    pub fn new(cmd_name: &str, args: Option<Vec<String>>) -> (c: Self)
        ensures
            c@ == (CommandView {
                cmd_name: cmd_name@,
                args: match args {
                    Some(v) => Some(strings(v@)),
                    None => None,
                },
            }),
    {
        Command { cmd_name: copy_text(cmd_name), args }
    }

    /// The name of the program.
    pub fn name(&self) -> (n: String)
        ensures
            n@ == self@.cmd_name,
    {
        copy_text(self.cmd_name.as_str())
    }

    /// The files to look for to tell whether the program exists, in the
    /// order of the directories of the search path `path`: the program
    /// exists if one of them is a file.
    pub fn is_exist(&self, path: &str) -> (candidates: Vec<String>)
        ensures
            strings(candidates@) == search_candidates(path@, self@.cmd_name),
    {
        let text = chars_of(path);
        let dirs = split_chars(&text, ':');
        let ghost all = search_candidates(path@, self@.cmd_name);
        let mut candidates: Vec<String> = Vec::new();
        let mut i: usize = 0;
        while i < dirs.len()
            invariant
                i <= dirs.len(),
                texts(dirs@) == split(path@, ':'),
                all == search_candidates(path@, self@.cmd_name),
                strings(candidates@) == all.take(i as int),
            decreases dirs.len() - i,
        {
            let ghost before = candidates@;
            let dir = string_of(&dirs[i]);
            assert(texts(dirs@)[i as int] == dirs@[i as int]@);
            candidates.push(join_path(dir.as_str(), self.cmd_name.as_str()));
            assert(strings(candidates@) =~= strings(before).push(all[i as int]));
            assert(all.take(i + 1) =~= all.take(i as int).push(all[i as int]));
            i += 1;
        }
        assert(all.take(dirs.len() as int) =~= all);
        candidates
    }

    /// The arguments to run the program with.
    pub fn execute(self) -> (args: Vec<String>)
        ensures
            strings(args@) == command_arguments(self@),
    {
        match self.args {
            Some(v) => v,
            None => {
                let v: Vec<String> = Vec::new();
                assert(strings(v@) =~= seq![]);
                v
            },
        }
    }
}

} // verus!
