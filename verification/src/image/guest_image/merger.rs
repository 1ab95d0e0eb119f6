//! Laying image layers over a tree: which layers go where, and what each
//! entry of a layer does to the tree below it.

use crate::text::{
    chars_of, copy_text, pairs, same_text, starts_with, string_of_range, strings,
};
use vstd::prelude::*;

verus! {

/// The prefix of the name of a whiteout file.
pub const WHITE_OUT_PREFIX: &'static str = ".wh.";

/// The name of the file that marks a directory as opaque.
pub const OPAQUE_FILE_NAME: &'static str = ".wh..wh..opq";

/// What kind of entry a layer holds at a path.
#[derive(Clone, Copy, Debug, PartialEq, Eq, Structural)]
pub enum EntryKind {
    Symlink,
    File,
    Dir,
    /// Anything else, such as a device or a socket.
    Other,
}

/// What an entry of a layer does to the tree below it.
#[derive(Debug)]
pub enum LayerStep {
    /// Leave the tree as it is.
    Skip,
    /// Copy the link, after deleting what is at its place if `replace`.
    CopySymlink { replace: bool },
    /// Copy the file.
    CopyFile,
    /// Delete the entry of this name beside the whiteout file.
    RemoveSibling { name: String },
    /// Create the directory with the layer's permissions, after deleting
    /// what is at its place if `replace`.
    CopyDir { replace: bool },
}

/// The value of a step.
pub enum Step {
    Skip,
    CopySymlink { replace: bool },
    CopyFile,
    RemoveSibling { name: Seq<char> },
    CopyDir { replace: bool },
}

impl View for LayerStep {
    type V = Step;

    open spec fn view(&self) -> Step {
        match self {
            LayerStep::Skip => Step::Skip,
            LayerStep::CopySymlink { replace } => Step::CopySymlink { replace: *replace },
            LayerStep::CopyFile => Step::CopyFile,
            LayerStep::RemoveSibling { name } => Step::RemoveSibling { name: name@ },
            LayerStep::CopyDir { replace } => Step::CopyDir { replace: *replace },
        }
    }
}

/// The name that a whiteout file hides: what follows the prefix, for a
/// file name that begins with it.
pub open spec fn hidden_name(file_name: Option<Seq<char>>) -> Option<Seq<char>> {
    match file_name {
        Some(name) => if WHITE_OUT_PREFIX@.is_prefix_of(name) {
            Some(name.skip(WHITE_OUT_PREFIX@.len() as int))
        } else {
            None
        },
        None => None,
    }
}

/// Whether a file name is that of the opaque marker.
pub open spec fn is_opaque_marker(file_name: Option<Seq<char>>) -> bool {
    file_name == Some(OPAQUE_FILE_NAME@)
}

/// What the entry of kind `kind` and name `file_name` does to the tree,
/// where `dest_exists` says whether the tree has an entry at its place and
/// `opaque` whether the entry is a directory that holds the opaque marker.
///
/// A link replaces what is there. The opaque marker itself does nothing; a
/// whiteout file deletes the entry it hides; any other file is copied. A
/// directory is created where none is, replaces the one that is there if it
/// is opaque, and otherwise leaves it alone.
pub open spec fn layer_step(
    kind: EntryKind,
    file_name: Option<Seq<char>>,
    dest_exists: bool,
    opaque: bool,
) -> Step {
    match kind {
        EntryKind::Symlink => Step::CopySymlink { replace: dest_exists },
        EntryKind::File => if is_opaque_marker(file_name) {
            Step::Skip
        } else {
            match hidden_name(file_name) {
                Some(name) => Step::RemoveSibling { name },
                None => Step::CopyFile,
            }
        },
        EntryKind::Dir => if !dest_exists {
            Step::CopyDir { replace: false }
        } else if opaque {
            Step::CopyDir { replace: true }
        } else {
            Step::Skip
        },
        EntryKind::Other => Step::Skip,
    }
}

/// The characters of an optional name.
pub open spec fn name_text(s: Option<&str>) -> Option<Seq<char>> {
    match s {
        Some(t) => Some(t@),
        None => None,
    }
}

/// The name that the whiteout file `file_name` hides, if it is one.
pub fn is_wh_file(file_name: Option<&str>) -> (r: Option<String>)
    ensures
        match hidden_name(name_text(file_name)) {
            Some(n) => r matches Some(s) && s@ == n,
            None => r is None,
        },
{
    match file_name {
        None => None,
        Some(name) => {
            if starts_with(name, WHITE_OUT_PREFIX) {
                let n = chars_of(name);
                let p = chars_of(WHITE_OUT_PREFIX);
                assert(n@.skip(p.len() as int) == n@.subrange(p.len() as int, n.len() as int));
                Some(string_of_range(&n, p.len(), n.len()))
            } else {
                None
            }
        },
    }
}

/// Whether `file_name` is the name of the opaque marker.
pub fn is_opq_file(file_name: Option<&str>) -> (r: bool)
    ensures
        r == is_opaque_marker(name_text(file_name)),
{
    match file_name {
        None => false,
        Some(name) => same_text(name, OPAQUE_FILE_NAME),
    }
}

/// Decides what one entry of a layer does to the tree below it.
pub fn copy_layer(kind: EntryKind, file_name: Option<&str>, dest_exists: bool, opaque: bool) -> (r:
    LayerStep)
    ensures
        r@ == layer_step(kind, name_text(file_name), dest_exists, opaque),
{
    match kind {
        EntryKind::Symlink => LayerStep::CopySymlink { replace: dest_exists },
        EntryKind::File => {
            if is_opq_file(file_name) {
                LayerStep::Skip
            } else {
                match is_wh_file(file_name) {
                    Some(name) => LayerStep::RemoveSibling { name },
                    None => LayerStep::CopyFile,
                }
            }
        },
        EntryKind::Dir => {
            if !dest_exists {
                LayerStep::CopyDir { replace: false }
            } else if opaque {
                LayerStep::CopyDir { replace: true }
            } else {
                LayerStep::Skip
            }
        },
        EntryKind::Other => LayerStep::Skip,
    }
}

/// The layers to lay over a tree, lowest first.
pub struct ImageMerger {
    lower: String,
    uppers: Vec<String>,
}

/// The value of a merger.
pub struct Merger {
    /// The tree that receives the layers.
    pub lower: Seq<char>,
    /// The layers, in the order in which they are laid.
    pub uppers: Seq<Seq<char>>,
}

/// The copies that a merge makes, in order: each layer onto the tree.
pub open spec fn merge_plan(m: Merger) -> Seq<(Seq<char>, Seq<char>)> {
    Seq::new(m.uppers.len(), |i: int| (m.uppers[i], m.lower))
}

impl View for ImageMerger {
    type V = Merger;

    closed spec fn view(&self) -> Merger {
        Merger { lower: self.lower@, uppers: strings(self.uppers@) }
    }
}

impl ImageMerger {
    /// A merger onto `lower`, with no layer yet.
    pub fn new(lower: &str) -> (r: Self)
        ensures
            r@ == (Merger { lower: lower@, uppers: seq![] }),
    {
        let r = ImageMerger { lower: copy_text(lower), uppers: Vec::new() };
        assert(r@.uppers =~= seq![]);
        r
    }

    /// Adds one layer on top.
    pub fn add_layer(self, upper: &str) -> (r: Self)
        ensures
            r@ == (Merger { uppers: self@.uppers.push(upper@), ..self@ }),
    {
        let mut m = self;
        m.uppers.push(copy_text(upper));
        assert(m@.uppers =~= self@.uppers.push(upper@));
        m
    }

    /// Adds layers on top, in order.
    pub fn add_layers(self, uppers: Vec<String>) -> (r: Self)
        ensures
            r@ == (Merger { uppers: self@.uppers + strings(uppers@), ..self@ }),
    {
        let mut m = self;
        let mut more = uppers;
        m.uppers.append(&mut more);
        assert(m@.uppers =~= self@.uppers + strings(uppers@));
        m
    }

    /// The copies to make, in order: the source layer and the tree it is
    /// laid over.
    pub fn merge(self) -> (plan: Vec<(String, String)>)
        ensures
            pairs(plan@) == merge_plan(self@),
    {
        let mut plan: Vec<(String, String)> = Vec::new();
        let mut i: usize = 0;
        while i < self.uppers.len()
            invariant
                i <= self.uppers.len(),
                pairs(plan@) == merge_plan(self@).take(i as int),
            decreases self.uppers.len() - i,
        {
            let ghost before = plan@;
            plan.push((copy_text(self.uppers[i].as_str()), copy_text(self.lower.as_str())));
            assert(strings(self.uppers@)[i as int] == self.uppers@[i as int]@);
            assert(pairs(plan@) =~= pairs(before).push(merge_plan(self@)[i as int]));
            assert(merge_plan(self@).take(i + 1) =~= merge_plan(self@).take(i as int).push(
                merge_plan(self@)[i as int],
            ));
            i += 1;
        }
        assert(merge_plan(self@).take(self.uppers.len() as int) =~= merge_plan(self@));
        plan
    }
}

} // verus!
