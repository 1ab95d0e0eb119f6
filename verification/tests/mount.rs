use orca::mount::{
    Cleanup, FileType, Found, Mount, MountError, MountFlags, Preparation, UnMount, UnMountFlags,
    MNT_DETACH, MNT_FORCE, MS_BIND, MS_NODEV, MS_NOEXEC, MS_NOSUID, MS_PRIVATE, MS_RDONLY, MS_REC,
};

#[test]
fn file_type_predicates() {
    assert!(FileType::File.is_file());
    assert!(!FileType::File.is_dir());
    assert!(FileType::Dir.is_dir());
    assert!(!FileType::Dir.is_file());
}

#[test]
fn flag_values_are_the_kernel_s() {
    assert_eq!(MS_RDONLY, 1);
    assert_eq!(MS_NOSUID, 2);
    assert_eq!(MS_NODEV, 4);
    assert_eq!(MS_NOEXEC, 8);
    assert_eq!(MS_BIND, 4096);
    assert_eq!(MS_REC, 16384);
    assert_eq!(MS_PRIVATE, 1 << 18);
    assert_eq!(MNT_FORCE, 1);
    assert_eq!(MNT_DETACH, 2);
    assert_eq!(MS_BIND, nix::mount::MsFlags::MS_BIND.bits() as u64);
    assert_eq!(MS_PRIVATE, nix::mount::MsFlags::MS_PRIVATE.bits() as u64);
    assert_eq!(MS_REC, nix::mount::MsFlags::MS_REC.bits() as u64);
    assert_eq!(MS_NODEV, nix::mount::MsFlags::MS_NODEV.bits() as u64);
    assert_eq!(MS_NOSUID, nix::mount::MsFlags::MS_NOSUID.bits() as u64);
    assert_eq!(MS_NOEXEC, nix::mount::MsFlags::MS_NOEXEC.bits() as u64);
    assert_eq!(MNT_DETACH, nix::mount::MntFlags::MNT_DETACH.bits() as u32);
}

#[test]
fn flags_union_and_contains() {
    let f = MountFlags::empty().union(MountFlags::from_bits(MS_NODEV));
    assert_eq!(f.bits, 4);
    let g = f.union(MountFlags::from_bits(MS_NOSUID | MS_NOEXEC));
    assert_eq!(g.bits, 14);
    assert!(g.contains(MountFlags::from_bits(MS_NODEV)));
    assert!(g.contains(MountFlags::from_bits(MS_NODEV | MS_NOEXEC)));
    assert!(!g.contains(MountFlags::from_bits(MS_BIND)));
    assert!(g.contains(MountFlags::empty()));
    assert_eq!(UnMountFlags::empty().union(UnMountFlags::from_bits(MNT_DETACH)).bits, 2);
}

#[test]
fn builder_records_every_field() {
    let m = Mount::new("/dev", FileType::Dir)
        .src("tmpfs")
        .fs_type("tmpfs")
        .flags(MountFlags::from_bits(MS_NOSUID))
        .data("mode=755");
    assert_eq!(m.dest(), "/dev");
    assert_eq!(m.source(), Some("tmpfs".to_string()));
    assert_eq!(m.file_system(), Some("tmpfs".to_string()));
    assert_eq!(m.options(), Some("mode=755".to_string()));
    assert_eq!(m.flag_bits(), 2);
    assert_eq!(m.file_type(), FileType::Dir);
}

#[test]
fn new_mount_has_nothing_set() {
    let m = Mount::new("/x", FileType::File);
    assert_eq!(m.dest(), "/x");
    assert_eq!(m.source(), None);
    assert_eq!(m.file_system(), None);
    assert_eq!(m.options(), None);
    assert_eq!(m.flag_bits(), 0);
    assert_eq!(m.file_type(), FileType::File);
}

#[test]
fn add_flags_keeps_earlier_flags_and_flags_replaces_them() {
    let m = Mount::new("/", FileType::Dir)
        .add_flags(MountFlags::from_bits(MS_PRIVATE))
        .add_flags(MountFlags::from_bits(MS_REC));
    assert_eq!(m.flag_bits(), MS_PRIVATE | MS_REC);
    let m = m.flags(MountFlags::from_bits(MS_BIND));
    assert_eq!(m.flag_bits(), MS_BIND);
}

#[test]
fn missing_directory_is_created() {
    let m = Mount::new("/proc", FileType::Dir);
    assert_eq!(m.mount(Found::Missing), Ok(Preparation::CreateDirAll));
}

#[test]
fn missing_file_is_created() {
    let m = Mount::new("/dev/null", FileType::File);
    assert_eq!(m.mount(Found::Missing), Ok(Preparation::CreateFile));
}

#[test]
fn matching_mount_point_is_left_alone() {
    assert_eq!(
        Mount::new("/dev/null", FileType::File).mount(Found::File),
        Ok(Preparation::Nothing)
    );
    assert_eq!(
        Mount::new("/proc", FileType::Dir).mount(Found::Dir),
        Ok(Preparation::Nothing)
    );
}

#[test]
fn file_on_directory_is_refused() {
    let m = Mount::new("/dev/null", FileType::File);
    assert_eq!(m.mount(Found::Dir), Err(MountError::KindMismatch));
}

#[test]
fn directory_on_file_is_refused() {
    let m = Mount::new("/proc", FileType::Dir);
    assert_eq!(m.mount(Found::File), Err(MountError::KindMismatch));
}

#[test]
fn unmount_keeps_mount_point_by_default() {
    let u = UnMount::new("/oldroot");
    assert_eq!(u.dest(), "/oldroot");
    assert_eq!(u.flag_bits(), 0);
    assert_eq!(u.unmount(Found::Dir), Ok(Cleanup::Keep));
    assert_eq!(u.unmount(Found::Missing), Ok(Cleanup::Keep));
}

#[test]
fn unmount_removes_file_or_directory_when_asked() {
    let u = UnMount::new("/oldroot")
        .remove_mount_point(true)
        .flags(UnMountFlags::from_bits(MNT_DETACH));
    assert_eq!(u.flag_bits(), 2);
    assert_eq!(u.unmount(Found::Dir), Ok(Cleanup::Remove));
    assert_eq!(u.unmount(Found::File), Ok(Cleanup::Remove));
}

#[test]
fn unmount_refuses_to_remove_what_is_neither() {
    let u = UnMount::new("/oldroot").remove_mount_point(true);
    assert_eq!(u.unmount(Found::Missing), Err(MountError::CannotRemove));
}

#[test]
fn unmount_add_flag_accumulates() {
    let u = UnMount::new("/x")
        .add_flag(UnMountFlags::from_bits(MNT_FORCE))
        .add_flag(UnMountFlags::from_bits(MNT_DETACH));
    assert_eq!(u.flag_bits(), 3);
}
