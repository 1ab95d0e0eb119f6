//! Mount and unmount descriptors, and what has to happen to a mount point
//! before the kernel is asked to mount on it or after it has let go of it.
//!
//! A descriptor is plain data. The caller looks at the file system, hands
//! what it found to [`Mount::mount`] or [`UnMount::unmount`], and carries out
//! the step that comes back.

use crate::text::{copy_opt, copy_text, text_of};
use vstd::prelude::*;

verus! {

/// Mount read-only.
pub const MS_RDONLY: u64 = 0x1;

/// Ignore set-user-id and set-group-id bits.
pub const MS_NOSUID: u64 = 0x2;

/// Disallow access to device special files.
pub const MS_NODEV: u64 = 0x4;

/// Disallow program execution.
pub const MS_NOEXEC: u64 = 0x8;

/// Make a subtree visible at another place.
pub const MS_BIND: u64 = 0x1000;

/// Apply to the whole subtree.
pub const MS_REC: u64 = 0x4000;

/// No mount event passes in or out of this mount.
pub const MS_PRIVATE: u64 = 0x40000;

/// Force the unmount even when busy.
pub const MNT_FORCE: u32 = 0x1;

/// Detach now, clean up when the mount is no longer busy.
pub const MNT_DETACH: u32 = 0x2;

/// Mark the mount point as expired.
pub const MNT_EXPIRE: u32 = 0x4;

/// Do not follow a symbolic link at the mount point.
pub const UMOUNT_NOFOLLOW: u32 = 0x8;

/// What a mount point is declared to be.
#[derive(Clone, Copy, Debug, PartialEq, Eq, PartialOrd, Ord, Structural)]
pub enum FileType {
    File,
    Dir,
}

impl FileType {
    pub fn is_file(&self) -> (r: bool)
        ensures
            r == (*self == FileType::File),
    {
        match self {
            FileType::File => true,
            FileType::Dir => false,
        }
    }

    pub fn is_dir(&self) -> (r: bool)
        ensures
            r == (*self == FileType::Dir),
    {
        match self {
            FileType::File => false,
            FileType::Dir => true,
        }
    }
}

/// The flag word of a mount call, one bit per flag.
#[derive(Clone, Copy, Debug, PartialEq, Eq, Structural)]
pub struct MountFlags {
    pub bits: u64,
}

impl MountFlags {
    /// No flag.
    pub fn empty() -> (r: Self)
        ensures
            r.bits == 0,
    {
        MountFlags { bits: 0 }
    }

    /// The flags whose bits are set in `bits`.
    pub fn from_bits(bits: u64) -> (r: Self)
        ensures
            r.bits == bits,
    {
        MountFlags { bits }
    }

    /// The flags of either word.
    pub fn union(self, other: MountFlags) -> (r: Self)
        ensures
            r.bits == self.bits | other.bits,
    {
        MountFlags { bits: self.bits | other.bits }
    }

    /// Whether every flag of `other` is set in `self`.
    pub fn contains(self, other: MountFlags) -> (r: bool)
        ensures
            r == (self.bits & other.bits == other.bits),
    {
        self.bits & other.bits == other.bits
    }
}

/// The flag word of an unmount call, one bit per flag.
#[derive(Clone, Copy, Debug, PartialEq, Eq, Structural)]
pub struct UnMountFlags {
    pub bits: u32,
}

impl UnMountFlags {
    /// No flag.
    pub fn empty() -> (r: Self)
        ensures
            r.bits == 0,
    {
        UnMountFlags { bits: 0 }
    }

    /// The flags whose bits are set in `bits`.
    pub fn from_bits(bits: u32) -> (r: Self)
        ensures
            r.bits == bits,
    {
        UnMountFlags { bits }
    }

    /// The flags of either word.
    pub fn union(self, other: UnMountFlags) -> (r: Self)
        ensures
            r.bits == self.bits | other.bits,
    {
        UnMountFlags { bits: self.bits | other.bits }
    }
}

/// What the caller found at a mount point.
#[derive(Clone, Copy, Debug, PartialEq, Eq, Structural)]
pub enum Found {
    /// Nothing is there, or it cannot be examined.
    Missing,
    /// Something that is not a directory.
    File,
    /// A directory.
    Dir,
}

/// What has to be done to a mount point before mounting on it.
#[derive(Clone, Copy, Debug, PartialEq, Eq, Structural)]
pub enum Preparation {
    /// The mount point is there already.
    Nothing,
    /// Create an empty file.
    CreateFile,
    /// Create the directory and every missing ancestor.
    CreateDirAll,
}

/// What has to be done to a mount point once it is unmounted.
#[derive(Clone, Copy, Debug, PartialEq, Eq, Structural)]
pub enum Cleanup {
    /// Leave the mount point in place.
    Keep,
    /// Delete the mount point.
    Remove,
}

/// Why a mount or unmount is refused before or after the kernel call.
#[derive(Clone, Copy, Debug, PartialEq, Eq, Structural)]
pub enum MountError {
    /// The mount point exists and is not of the declared kind.
    KindMismatch,
    /// The mount point to delete is neither a file nor a directory.
    CannotRemove,
}

/// What is at a mount point once `step` has been carried out on `found`.
pub open spec fn prepared(found: Found, step: Preparation) -> Found {
    match (found, step) {
        (Found::Missing, Preparation::CreateFile) => Found::File,
        (Found::Missing, Preparation::CreateDirAll) => Found::Dir,
        _ => found,
    }
}

/// Whether what was found can serve as a mount point of kind `kind`.
pub open spec fn agrees(kind: FileType, found: Found) -> bool {
    match (kind, found) {
        (FileType::File, Found::File) => true,
        (FileType::Dir, Found::Dir) => true,
        _ => false,
    }
}

/// The step that readies a mount point of kind `kind`, or the refusal.
pub open spec fn preparation(kind: FileType, found: Found) -> Result<Preparation, MountError> {
    match (found, kind) {
        (Found::Missing, FileType::File) => Ok(Preparation::CreateFile),
        (Found::Missing, FileType::Dir) => Ok(Preparation::CreateDirAll),
        (Found::File, FileType::File) => Ok(Preparation::Nothing),
        (Found::Dir, FileType::Dir) => Ok(Preparation::Nothing),
        (Found::File, FileType::Dir) => Err(MountError::KindMismatch),
        (Found::Dir, FileType::File) => Err(MountError::KindMismatch),
    }
}

/// The step that follows a successful unmount, or the refusal.
pub open spec fn cleanup(remove: bool, found: Found) -> Result<Cleanup, MountError> {
    if !remove {
        Ok(Cleanup::Keep)
    } else if found == Found::Missing {
        Err(MountError::CannotRemove)
    } else {
        Ok(Cleanup::Remove)
    }
}

/// A mount point that was missing is, once prepared, of the declared kind;
/// one that was there is accepted exactly when it already is, and is then
/// left as it was.
pub proof fn lemma_prepared_mount_point(kind: FileType, found: Found)
    ensures
        found == Found::Missing ==> preparation(kind, found) is Ok,
        preparation(kind, found) matches Ok(step) ==> agrees(kind, prepared(found, step)),
        found != Found::Missing ==> (preparation(kind, found) is Ok <==> agrees(kind, found)),
        found != Found::Missing && preparation(kind, found) is Ok ==> preparation(kind, found)
            == Ok::<Preparation, MountError>(Preparation::Nothing),
{
}

/// A mount descriptor.
pub struct Mount {
    src: Option<String>,
    dest: String,
    fs_type: Option<String>,
    flags: MountFlags,
    data: Option<String>,
    file_type: FileType,
}

/// The value of a mount descriptor.
pub struct MountView {
    pub src: Option<Seq<char>>,
    pub dest: Seq<char>,
    pub fs_type: Option<Seq<char>>,
    pub flags: u64,
    pub data: Option<Seq<char>>,
    pub file_type: FileType,
}

/// The values of the descriptors in `v`.
pub open spec fn mount_views(v: Seq<Mount>) -> Seq<MountView> {
    Seq::new(v.len(), |i: int| v[i]@)
}

impl View for Mount {
    type V = MountView;

    closed spec fn view(&self) -> MountView {
        MountView {
            src: text_of(self.src),
            dest: self.dest@,
            fs_type: text_of(self.fs_type),
            flags: self.flags.bits,
            data: text_of(self.data),
            file_type: self.file_type,
        }
    }
}

impl Mount {
    /// A descriptor for `dest` with no source, type, data or flag.
    pub fn new(dest: &str, file_type: FileType) -> (r: Self)
        ensures
            r@ == (MountView {
                src: None,
                dest: dest@,
                fs_type: None,
                flags: 0,
                data: None,
                file_type,
            }),
    {
        Mount {
            src: None,
            dest: copy_text(dest),
            fs_type: None,
            flags: MountFlags::empty(),
            data: None,
            file_type,
        }
    }

    pub fn src(self, src: &str) -> (r: Self)
        ensures
            r@ == (MountView { src: Some(src@), ..self@ }),
    {
        let mut m = self;
        m.src = Some(copy_text(src));
        m
    }

    pub fn fs_type(self, fs_type: &str) -> (r: Self)
        ensures
            r@ == (MountView { fs_type: Some(fs_type@), ..self@ }),
    {
        let mut m = self;
        m.fs_type = Some(copy_text(fs_type));
        m
    }

    pub fn data(self, data: &str) -> (r: Self)
        ensures
            r@ == (MountView { data: Some(data@), ..self@ }),
    {
        let mut m = self;
        m.data = Some(copy_text(data));
        m
    }

    /// Replaces the flags.
    pub fn flags(self, flags: MountFlags) -> (r: Self)
        ensures
            r@ == (MountView { flags: flags.bits, ..self@ }),
    {
        let mut m = self;
        m.flags = flags;
        m
    }

    /// Adds `flag` to the flags.
    pub fn add_flags(self, flag: MountFlags) -> (r: Self)
        ensures
            r@ == (MountView { flags: self@.flags | flag.bits, ..self@ }),
    {
        let mut m = self;
        m.flags = m.flags.union(flag);
        m
    }

    /// Decides what to do to the mount point, given what is there, before
    /// the kernel is asked to mount: nothing where it is of the declared
    /// kind, its creation where it is missing, a refusal where it is of the
    /// other kind.
    pub fn mount(&self, found: Found) -> (r: Result<Preparation, MountError>)
        ensures
            r == preparation(self@.file_type, found),
    {
        match found {
            Found::Missing => {
                if self.file_type.is_file() {
                    Ok(Preparation::CreateFile)
                } else {
                    Ok(Preparation::CreateDirAll)
                }
            },
            Found::File => {
                if self.file_type.is_dir() {
                    Err(MountError::KindMismatch)
                } else {
                    Ok(Preparation::Nothing)
                }
            },
            Found::Dir => {
                if self.file_type.is_file() {
                    Err(MountError::KindMismatch)
                } else {
                    Ok(Preparation::Nothing)
                }
            },
        }
    }

    pub fn source(&self) -> (r: Option<String>)
        ensures
            text_of(r) == self@.src,
    {
        copy_opt(&self.src)
    }

    pub fn dest(&self) -> (r: String)
        ensures
            r@ == self@.dest,
    {
        copy_text(self.dest.as_str())
    }

    pub fn file_system(&self) -> (r: Option<String>)
        ensures
            text_of(r) == self@.fs_type,
    {
        copy_opt(&self.fs_type)
    }

    pub fn options(&self) -> (r: Option<String>)
        ensures
            text_of(r) == self@.data,
    {
        copy_opt(&self.data)
    }

    pub fn flag_bits(&self) -> (r: u64)
        ensures
            r == self@.flags,
    {
        self.flags.bits
    }

    pub fn file_type(&self) -> (r: FileType)
        ensures
            r == self@.file_type,
    {
        self.file_type
    }
}

/// An unmount descriptor.
pub struct UnMount {
    dest: String,
    flags: UnMountFlags,
    remove_mount_point: bool,
}

/// The value of an unmount descriptor.
pub struct UnMountView {
    pub dest: Seq<char>,
    pub flags: u32,
    pub remove_mount_point: bool,
}

impl View for UnMount {
    type V = UnMountView;

    closed spec fn view(&self) -> UnMountView {
        UnMountView {
            dest: self.dest@,
            flags: self.flags.bits,
            remove_mount_point: self.remove_mount_point,
        }
    }
}

impl UnMount {
    /// A descriptor for `dest` with no flag, which keeps the mount point.
    pub fn new(dest: &str) -> (r: Self)
        ensures
            r@ == (UnMountView { dest: dest@, flags: 0, remove_mount_point: false }),
    {
        UnMount { dest: copy_text(dest), flags: UnMountFlags::empty(), remove_mount_point: false }
    }

    /// Replaces the flags.
    pub fn flags(self, flags: UnMountFlags) -> (r: Self)
        ensures
            r@ == (UnMountView { flags: flags.bits, ..self@ }),
    {
        let mut u = self;
        u.flags = flags;
        u
    }

    /// Adds `flag` to the flags.
    pub fn add_flag(self, flag: UnMountFlags) -> (r: Self)
        ensures
            r@ == (UnMountView { flags: self@.flags | flag.bits, ..self@ }),
    {
        let mut u = self;
        u.flags = u.flags.union(flag);
        u
    }

    pub fn remove_mount_point(self, flag: bool) -> (r: Self)
        ensures
            r@ == (UnMountView { remove_mount_point: flag, ..self@ }),
    {
        let mut u = self;
        u.remove_mount_point = flag;
        u
    }

    /// Decides what to do to the mount point, given what is there once the
    /// kernel has unmounted it: keep it unless its removal was asked for,
    /// and refuse to remove what is neither a file nor a directory.
    pub fn unmount(&self, found: Found) -> (r: Result<Cleanup, MountError>)
        ensures
            r == cleanup(self@.remove_mount_point, found),
    {
        if !self.remove_mount_point {
            Ok(Cleanup::Keep)
        } else {
            match found {
                Found::Missing => Err(MountError::CannotRemove),
                _ => Ok(Cleanup::Remove),
            }
        }
    }

    pub fn dest(&self) -> (r: String)
        ensures
            r@ == self@.dest,
    {
        copy_text(self.dest.as_str())
    }

    pub fn flag_bits(&self) -> (r: u32)
        ensures
            r == self@.flags,
    {
        self.flags.bits
    }
}

} // verus!
