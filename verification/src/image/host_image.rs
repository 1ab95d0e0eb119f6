//! An image that lays an overlay over the host's own root.

use crate::image::ContainerImage;
use crate::mount::{mount_views, FileType, Mount, MountFlags, MountView, MS_PRIVATE, MS_REC};
use crate::text::{
    contains_char, copy_text, join_path, joined, joined_by, lemma_split_of_joined, push_text, split,
    strings,
};
use vstd::prelude::*;

verus! {

/// The file system type of an overlay mount.
pub const OVERLAYFS_FSTYPE: &'static str = "overlay";

/// The label of a host image.
pub const IMAGE_NAME: &'static str = "host_image";

/// Why an image cannot be described.
#[derive(Clone, Copy, Debug, PartialEq, Eq, Structural)]
pub enum ImageError {
    /// The lower directory at this index holds a colon, which would split
    /// it in two in the mount options.
    ColonInLowerdir(usize),
}

/// The directories of one overlay.
pub struct OverlayConfig {
    mp: String,
    upperdir: String,
    lowerdir: Vec<String>,
    workdir: String,
}

/// The value of an overlay layout.
pub struct Overlay {
    /// Where the merged view appears.
    pub mp: Seq<char>,
    /// The writable layer.
    pub upperdir: Seq<char>,
    /// The read-only layers, topmost first.
    pub lowerdir: Seq<Seq<char>>,
    /// The overlay's private working directory.
    pub workdir: Seq<char>,
}

/// The paths of `parts` in one string, a colon between each two.
pub open spec fn colon_list(parts: Seq<Seq<char>>) -> Seq<char> {
    joined_by(parts, ':')
}

/// The data string of the overlay's mount call.
pub open spec fn option_string(o: Overlay) -> Seq<char> {
    "lowerdir="@ + colon_list(o.lowerdir) + ",upperdir="@ + o.upperdir + ",workdir="@
        + o.workdir
}

/// The mount that brings up the overlay `o`.
pub open spec fn overlay_mount(o: Overlay) -> MountView {
    MountView {
        src: None,
        dest: o.mp,
        fs_type: Some(OVERLAYFS_FSTYPE@),
        flags: 0,
        data: Some(option_string(o)),
        file_type: FileType::Dir,
    }
}

/// The index of the first path of `dirs`, at or after `from`, that holds
/// a colon, or the number of paths where there is none.
pub open spec fn first_with_colon(dirs: Seq<Seq<char>>, from: int) -> int
    decreases dirs.len() - from,
{
    if from >= dirs.len() {
        dirs.len() as int
    } else if dirs[from].contains(':') {
        from
    } else {
        first_with_colon(dirs, from + 1)
    }
}

/// Whether no lower directory of `o` holds a colon.
pub open spec fn overlay_wf(o: Overlay) -> bool {
    forall|i: int| 0 <= i < o.lowerdir.len() ==> !(#[trigger] o.lowerdir[i]).contains(':')
}

/// `first_with_colon` finds a path with a colon exactly where there is one.
pub proof fn lemma_first_with_colon(dirs: Seq<Seq<char>>, from: int)
    requires
        0 <= from <= dirs.len(),
    ensures
        from <= first_with_colon(dirs, from) <= dirs.len(),
        first_with_colon(dirs, from) < dirs.len() ==> dirs[first_with_colon(dirs, from)].contains(
            ':',
        ),
        forall|j: int|
            from <= j < first_with_colon(dirs, from) ==> !(#[trigger] dirs[j]).contains(':'),
    decreases dirs.len() - from,
{
    if from < dirs.len() && !dirs[from].contains(':') {
        lemma_first_with_colon(dirs, from + 1);
    }
}

/// The lower directories of a well-formed overlay can be told apart in its
/// data string: splitting their list at the colons gives them back.
pub proof fn lemma_lowerdirs_recoverable(o: Overlay)
    requires
        overlay_wf(o),
        o.lowerdir.len() >= 1,
    ensures
        split(colon_list(o.lowerdir), ':') == o.lowerdir,
{
    lemma_split_of_joined(o.lowerdir, ':');
}

impl View for OverlayConfig {
    type V = Overlay;

    closed spec fn view(&self) -> Overlay {
        Overlay {
            mp: self.mp@,
            upperdir: self.upperdir@,
            lowerdir: strings(self.lowerdir@),
            workdir: self.workdir@,
        }
    }
}

impl OverlayConfig {
    /// The data string of the overlay's mount call: the lower directories
    /// with a colon between each two and none at the end, then the upper
    /// and the working directory.
    pub fn to_option_string(&self) -> (out: String)
        ensures
            out@ == option_string(self@),
    {
        let mut out = copy_text("lowerdir=");
        let ghost head = out@;
        let mut i: usize = 0;
        while i < self.lowerdir.len()
            invariant
                i <= self.lowerdir.len(),
                out@ == head + colon_list(strings(self.lowerdir@).take(i as int)),
            decreases self.lowerdir.len() - i,
        {
            let ghost before = strings(self.lowerdir@).take(i as int);
            let ghost after = strings(self.lowerdir@).take(i + 1);
            assert(after.drop_last() == before);
            assert(after.last() == self.lowerdir@[i as int]@);
            if i > 0 {
                out.push(':');
            }
            push_text(&mut out, self.lowerdir[i].as_str());
            assert(out@ =~= head + colon_list(after));
            i += 1;
        }
        assert(strings(self.lowerdir@).take(self.lowerdir.len() as int) == strings(self.lowerdir@));
        push_text(&mut out, ",upperdir=");
        push_text(&mut out, self.upperdir.as_str());
        push_text(&mut out, ",workdir=");
        push_text(&mut out, self.workdir.as_str());
        out
    }

    /// The mount that brings up the overlay.
    pub fn to_mount(&self) -> (m: Mount)
        ensures
            m@ == overlay_mount(self@),
    {
        let data = self.to_option_string();
        Mount::new(self.mp.as_str(), FileType::Dir).fs_type(OVERLAYFS_FSTYPE).data(data.as_str())
    }
}

/// An overlay over the host's root, with the snapshots below the writable
/// layer.
pub struct HostImage {
    mount_config: OverlayConfig,
    fake_mount_config: OverlayConfig,
}

/// The value of a host image: its two overlays.
pub struct HostImageView {
    /// The overlay that the container runs on.
    pub main: Overlay,
    /// The overlay that stands for the host's root as one layer.
    pub fake: Overlay,
}

/// The overlay that turns the host's root into one lower layer, kept in
/// `tmpdir`.
pub open spec fn fake_overlay(tmpdir: Seq<char>) -> Overlay {
    Overlay {
        mp: joined(tmpdir, "fake_rootfs"@),
        upperdir: joined(tmpdir, "fake_upper"@),
        lowerdir: seq!["/"@],
        workdir: joined(tmpdir, "fake_work"@),
    }
}

/// The host image made of these directories: the main overlay lies over
/// the additional lower directories and, below them, the fake root.
pub open spec fn host_image(
    mount_point: Seq<char>,
    upperdir: Seq<char>,
    additional_lowerdirs: Seq<Seq<char>>,
    workdir: Seq<char>,
    tmpdir: Seq<char>,
) -> HostImageView {
    HostImageView {
        main: Overlay {
            mp: mount_point,
            upperdir,
            lowerdir: additional_lowerdirs.push(fake_overlay(tmpdir).mp),
            workdir,
        },
        fake: fake_overlay(tmpdir),
    }
}

/// The mounts of a host image: `/` is made private with all below it, the
/// fake overlay comes up, then the main overlay.
pub open spec fn host_mounts(v: HostImageView) -> Seq<MountView> {
    seq![
        MountView {
            src: None,
            dest: "/"@,
            fs_type: None,
            flags: MS_PRIVATE | MS_REC,
            data: None,
            file_type: FileType::Dir,
        },
        overlay_mount(v.fake),
        overlay_mount(v.main),
    ]
}

impl View for HostImage {
    type V = HostImageView;

    closed spec fn view(&self) -> HostImageView {
        HostImageView { main: self.mount_config@, fake: self.fake_mount_config@ }
    }
}

impl HostImage {
    /// A host image over these directories, unless one of its lower
    /// directories holds a colon; the error names the first that does.
    pub fn new(
        mount_point: &str,
        upperdir: &str,
        additional_lowerdirs: Vec<String>,
        workdir: &str,
        tmpdir: &str,
    ) -> (r: Result<Self, ImageError>)
        ensures
            ({
                let v = host_image(
                    mount_point@,
                    upperdir@,
                    strings(additional_lowerdirs@),
                    workdir@,
                    tmpdir@,
                );
                let at = first_with_colon(v.main.lowerdir, 0);
                if at < v.main.lowerdir.len() {
                    r == Err::<Self, ImageError>(ImageError::ColonInLowerdir(at as usize))
                } else {
                    r matches Ok(image) && image@ == v && overlay_wf(image@.main) && overlay_wf(
                        image@.fake,
                    )
                }
            }),
    {
        let fake_mp = join_path(tmpdir, "fake_rootfs");
        let mut fake_lower: Vec<String> = Vec::new();
        fake_lower.push(copy_text("/"));
        let fake_mount_config = OverlayConfig {
            mp: copy_text(fake_mp.as_str()),
            upperdir: join_path(tmpdir, "fake_upper"),
            lowerdir: fake_lower,
            workdir: join_path(tmpdir, "fake_work"),
        };
        assert(fake_mount_config@.lowerdir =~= seq!["/"@]);
        let mut lowerdir = additional_lowerdirs;
        lowerdir.push(fake_mp);
        let ghost lower = strings(additional_lowerdirs@).push(fake_overlay(tmpdir@).mp);
        assert(strings(lowerdir@) =~= lower);
        let mut i: usize = 0;
        while i < lowerdir.len()
            invariant
                i <= lowerdir.len(),
                strings(lowerdir@) == lower,
                lower == strings(additional_lowerdirs@).push(fake_overlay(tmpdir@).mp),
                first_with_colon(strings(lowerdir@), 0) == first_with_colon(
                    strings(lowerdir@),
                    i as int,
                ),
            decreases lowerdir.len() - i,
        {
            assert(strings(lowerdir@)[i as int] == lowerdir@[i as int]@);
            if contains_char(lowerdir[i].as_str(), ':') {
                return Err(ImageError::ColonInLowerdir(i));
            }
            i += 1;
        }
        proof {
            lemma_first_with_colon(strings(lowerdir@), 0);
            reveal_strlit("/");
            assert(!"/"@.contains(':'));
        }
        let mount_config = OverlayConfig {
            mp: copy_text(mount_point),
            upperdir: copy_text(upperdir),
            lowerdir,
            workdir: copy_text(workdir),
        };
        Ok(HostImage { mount_config, fake_mount_config })
    }

    /// The directories of the fake overlay, which have to exist before the
    /// image is mounted.
    pub fn scratch_dirs(&self) -> (dirs: Vec<String>)
        ensures
            strings(dirs@) == seq![self@.fake.mp, self@.fake.upperdir, self@.fake.workdir],
    {
        let mut dirs: Vec<String> = Vec::new();
        dirs.push(copy_text(self.fake_mount_config.mp.as_str()));
        dirs.push(copy_text(self.fake_mount_config.upperdir.as_str()));
        dirs.push(copy_text(self.fake_mount_config.workdir.as_str()));
        assert(strings(dirs@) =~= seq![self@.fake.mp, self@.fake.upperdir, self@.fake.workdir]);
        dirs
    }
}

impl ContainerImage for HostImage {
    fn mount(&self) -> (mounts: Vec<Mount>)
        ensures
            mount_views(mounts@) == host_mounts(self@),
    {
        let mut mounts: Vec<Mount> = Vec::new();
        mounts.push(
            Mount::new("/", FileType::Dir).flags(MountFlags::from_bits(MS_PRIVATE | MS_REC)),
        );
        mounts.push(self.fake_mount_config.to_mount());
        mounts.push(self.mount_config.to_mount());
        assert(mount_views(mounts@) =~= host_mounts(self@));
        mounts
    }

    fn rootfs_path(&self) -> (path: String)
        ensures
            path@ == self@.main.mp,
    {
        copy_text(self.mount_config.mp.as_str())
    }

    fn name(&self) -> (name: String)
        ensures
            name@ == IMAGE_NAME@,
    {
        copy_text(IMAGE_NAME)
    }

    fn need_userns(&self) -> (r: bool)
        ensures
            !r,
    {
        false
    }
}

} // verus!
