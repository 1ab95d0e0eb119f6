//! An image materialised from a registry, and the per-container tree that
//! is merged from it.

pub mod downloader;
pub mod merger;

use crate::image::ContainerImage;
use crate::mount::{mount_views, FileType, Mount, MountFlags, MountView, MS_BIND};
use crate::text::{
    copy_text, decimal, join_path, joined, push_decimal, push_text, replace_char, replaced,
};
use downloader::{image_downloader, ImageDownloader};
use merger::{ImageMerger, Merger};
use vstd::prelude::*;

verus! {

/// The directory, below an image or a container, that holds the tree.
pub const ROOTFS_NAME: &'static str = "rootfs";

/// Where layers are unpacked unless another place is chosen.
pub const DEFAULT_WORKDIR: &'static str = "/tmp/image_downloader/";

/// A guest image and one container made from it.
pub struct GuestImage {
    image_path: String,
    container_path: String,
    workdir_path: String,
    image_name: String,
    image_tag: String,
    container_name: String,
    display_progress: bool,
}

/// The value of a guest image.
pub struct GuestImageView {
    /// The tree materialised from the registry.
    pub image_path: Seq<char>,
    /// The container's own tree.
    pub container_path: Seq<char>,
    /// Where layers are unpacked.
    pub workdir_path: Seq<char>,
    pub image_name: Seq<char>,
    pub image_tag: Seq<char>,
    pub container_name: Seq<char>,
    /// Whether progress is shown while downloading.
    pub display_progress: bool,
}

/// The directory of image `name` at `tag` below `prefix`: every `/` of the
/// name becomes `_`, so that the name is one component.
pub open spec fn image_dir(prefix: Seq<char>, name: Seq<char>, tag: Seq<char>) -> Seq<char> {
    joined(joined(prefix, replaced(name, '/', '_')), tag)
}

/// The guest image of these names below `prefix`.
pub open spec fn guest_image(
    prefix: Seq<char>,
    name: Seq<char>,
    tag: Seq<char>,
    container: Seq<char>,
) -> GuestImageView {
    GuestImageView {
        image_path: joined(image_dir(prefix, name, tag), ROOTFS_NAME@),
        container_path: joined(joined(image_dir(prefix, name, tag), container), ROOTFS_NAME@),
        workdir_path: DEFAULT_WORKDIR@,
        image_name: name,
        image_tag: tag,
        container_name: container,
        display_progress: false,
    }
}

/// The mount of a guest image: the container's tree bound onto itself, so
/// that it is a mount point that can be pivoted into.
pub open spec fn guest_mounts(v: GuestImageView) -> Seq<MountView> {
    seq![
        MountView {
            src: Some(v.container_path),
            dest: v.container_path,
            fs_type: None,
            flags: MS_BIND,
            data: None,
            file_type: FileType::Dir,
        },
    ]
}

/// The line shown before a download starts.
pub open spec fn pre_download_line(name: Seq<char>, tag: Seq<char>) -> Seq<char> {
    "Download container image: "@ + name + ":"@ + tag + " "@
}

/// The line shown after each layer.
pub open spec fn post_download_line(layers: nat, downloaded: nat) -> Seq<char> {
    decimal(downloaded) + "/"@ + decimal(layers) + " layer has downloaded"@
}

impl View for GuestImage {
    type V = GuestImageView;

    closed spec fn view(&self) -> GuestImageView {
        GuestImageView {
            image_path: self.image_path@,
            container_path: self.container_path@,
            workdir_path: self.workdir_path@,
            image_name: self.image_name@,
            image_tag: self.image_tag@,
            container_name: self.container_name@,
            display_progress: self.display_progress,
        }
    }
}

impl GuestImage {
    pub fn new(rootfs_prefix: &str, image_name: &str, image_tag: &str, container_name: &str) -> (r:
        Self)
        ensures
            r@ == guest_image(rootfs_prefix@, image_name@, image_tag@, container_name@),
    {
        let safe = replace_char(image_name, '/', '_');
        let named = join_path(rootfs_prefix, safe.as_str());
        let image_root = join_path(named.as_str(), image_tag);
        let image_path = join_path(image_root.as_str(), ROOTFS_NAME);
        let container_root = join_path(image_root.as_str(), container_name);
        let container_path = join_path(container_root.as_str(), ROOTFS_NAME);
        GuestImage {
            image_path,
            container_path,
            workdir_path: copy_text(DEFAULT_WORKDIR),
            image_name: copy_text(image_name),
            image_tag: copy_text(image_tag),
            container_name: copy_text(container_name),
            display_progress: false,
        }
    }

    /// Chooses where layers are unpacked.
    pub fn workdir(self, path: &str) -> (r: Self)
        ensures
            r@ == (GuestImageView { workdir_path: path@, ..self@ }),
    {
        let mut g = self;
        g.workdir_path = copy_text(path);
        g
    }

    /// Chooses whether progress is shown while downloading.
    pub fn display_progress(self, b: bool) -> (r: Self)
        ensures
            r@ == (GuestImageView { display_progress: b, ..self@ }),
    {
        let mut g = self;
        g.display_progress = b;
        g
    }

    /// The download of this image: its layers are unpacked below the
    /// working directory and end up in the image's tree.
    pub fn download(&self) -> (d: ImageDownloader)
        ensures
            d@ == image_downloader(
                self@.image_name,
                self@.image_tag,
                self@.image_path,
                self@.workdir_path,
            ),
    {
        ImageDownloader::new(
            self.image_name.as_str(),
            self.image_tag.as_str(),
            self.image_path.as_str(),
            self.workdir_path.as_str(),
        )
    }

    /// The merge that makes the container's tree: the image's tree is laid
    /// over it.
    pub fn create_container_image(&self) -> (m: ImageMerger)
        ensures
            m@ == (Merger { lower: self@.container_path, uppers: seq![self@.image_path] }),
    {
        let m = ImageMerger::new(self.container_path.as_str()).add_layer(self.image_path.as_str());
        assert(m@.uppers =~= seq![self@.image_path]);
        m
    }

    pub fn image_name(&self) -> (n: String)
        ensures
            n@ == self@.image_name,
    {
        copy_text(self.image_name.as_str())
    }

    pub fn image_tag(&self) -> (t: String)
        ensures
            t@ == self@.image_tag,
    {
        copy_text(self.image_tag.as_str())
    }

    pub fn image_path(&self) -> (p: String)
        ensures
            p@ == self@.image_path,
    {
        copy_text(self.image_path.as_str())
    }

    pub fn container_path(&self) -> (p: String)
        ensures
            p@ == self@.container_path,
    {
        copy_text(self.container_path.as_str())
    }

    pub fn workdir_path(&self) -> (p: String)
        ensures
            p@ == self@.workdir_path,
    {
        copy_text(self.workdir_path.as_str())
    }

    pub fn container_name(&self) -> (n: String)
        ensures
            n@ == self@.container_name,
    {
        copy_text(self.container_name.as_str())
    }

    /// The root that the container runs on.
    pub fn image_root(&self) -> (p: String)
        ensures
            p@ == self@.container_path,
    {
        copy_text(self.container_path.as_str())
    }

    /// Whether progress is shown while downloading.
    pub fn shows_progress(&self) -> (b: bool)
        ensures
            b == self@.display_progress,
    {
        self.display_progress
    }
}

impl ContainerImage for GuestImage {
    fn mount(&self) -> (mounts: Vec<Mount>)
        ensures
            mount_views(mounts@) == guest_mounts(self@),
    {
        let mut mounts: Vec<Mount> = Vec::new();
        mounts.push(
            Mount::new(self.container_path.as_str(), FileType::Dir).src(
                self.container_path.as_str(),
            ).flags(MountFlags::from_bits(MS_BIND)),
        );
        assert(mount_views(mounts@) =~= guest_mounts(self@));
        mounts
    }

    fn rootfs_path(&self) -> (path: String)
        ensures
            path@ == self@.container_path,
    {
        copy_text(self.container_path.as_str())
    }

    fn name(&self) -> (name: String)
        ensures
            name@ == self@.container_name,
    {
        copy_text(self.container_name.as_str())
    }

    fn need_userns(&self) -> (r: bool)
        ensures
            r,
    {
        true
    }
}

/// The line to show before a download starts.
pub fn display_pre_download(name: &str, tag: &str) -> (line: String)
    ensures
        line@ == pre_download_line(name@, tag@),
{
    let mut line = copy_text("Download container image: ");
    push_text(&mut line, name);
    push_text(&mut line, ":");
    push_text(&mut line, tag);
    push_text(&mut line, " ");
    line
}

/// The line to show after a layer has been downloaded.
pub fn display_post_download(num_of_layer: usize, downloaded_layer: usize) -> (line: String)
    ensures
        line@ == post_download_line(num_of_layer as nat, downloaded_layer as nat),
{
    let mut line = String::new();
    push_decimal(&mut line, downloaded_layer as u64);
    push_text(&mut line, "/");
    push_decimal(&mut line, num_of_layer as u64);
    push_text(&mut line, " layer has downloaded");
    assert(line@ =~= post_download_line(num_of_layer as nat, downloaded_layer as nat));
    line
}

} // verus!
