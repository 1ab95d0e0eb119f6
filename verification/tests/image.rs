use orca::image::guest_image::downloader::{ImageDownloader, MANIFEST_MEDIA_TYPE};
use orca::image::guest_image::merger::{
    copy_layer, is_opq_file, is_wh_file, EntryKind, ImageMerger, LayerStep,
};
use orca::image::guest_image::{display_post_download, display_pre_download};
use orca::image::host_image::ImageError;
use orca::image::{ContainerImage, GuestImage, HostImage};
use orca::mount::{FileType, Mount, MS_BIND, MS_PRIVATE, MS_REC};

fn host(lower: Vec<&str>) -> Result<HostImage, ImageError> {
    HostImage::new(
        "/e/rootfs",
        "/e/upper",
        lower.into_iter().map(|s| s.to_string()).collect(),
        "/e/work",
        "/e/tmp",
    )
}

fn describe(m: &Mount) -> (String, Option<String>, Option<String>, u64, Option<String>, FileType) {
    (m.dest(), m.source(), m.file_system(), m.flag_bits(), m.options(), m.file_type())
}

#[test]
fn host_image_mounts_private_root_then_both_overlays() {
    let image = host(vec!["/e/layers/b", "/e/layers/a"]).unwrap();
    let got: Vec<_> = image.mount().iter().map(describe).collect();
    assert_eq!(
        got,
        vec![
            ("/".to_string(), None, None, MS_PRIVATE | MS_REC, None, FileType::Dir),
            (
                "/e/tmp/fake_rootfs".to_string(),
                None,
                Some("overlay".to_string()),
                0,
                Some(
                    "lowerdir=/,upperdir=/e/tmp/fake_upper,workdir=/e/tmp/fake_work".to_string()
                ),
                FileType::Dir
            ),
            (
                "/e/rootfs".to_string(),
                None,
                Some("overlay".to_string()),
                0,
                Some(
                    "lowerdir=/e/layers/b:/e/layers/a:/e/tmp/fake_rootfs,upperdir=/e/upper,workdir=/e/work"
                        .to_string()
                ),
                FileType::Dir
            ),
        ]
    );
}

#[test]
fn host_image_without_snapshots_lies_on_the_fake_root_alone() {
    let image = host(vec![]).unwrap();
    let mounts = image.mount();
    assert_eq!(
        mounts[2].options(),
        Some("lowerdir=/e/tmp/fake_rootfs,upperdir=/e/upper,workdir=/e/work".to_string())
    );
}

#[test]
fn host_image_surface() {
    let image = host(vec![]).unwrap();
    assert_eq!(image.rootfs_path(), "/e/rootfs");
    assert_eq!(image.name(), "host_image");
    assert!(!image.need_userns());
    assert_eq!(
        image.scratch_dirs(),
        vec!["/e/tmp/fake_rootfs", "/e/tmp/fake_upper", "/e/tmp/fake_work"]
    );
}

#[test]
fn host_image_refuses_a_colon_in_a_lower_directory() {
    assert_eq!(
        host(vec!["/ok", "/a:b", "/c:d"]).err(),
        Some(ImageError::ColonInLowerdir(1))
    );
    let r = HostImage::new("/m", "/u", vec!["/x".to_string()], "/w", "/t:mp");
    assert_eq!(r.err(), Some(ImageError::ColonInLowerdir(1)));
}

#[test]
fn guest_image_paths() {
    let g = GuestImage::new("/home/u/.local/orca", "library/debian", "latest", "box");
    assert_eq!(g.image_path(), "/home/u/.local/orca/library_debian/latest/rootfs");
    assert_eq!(
        g.container_path(),
        "/home/u/.local/orca/library_debian/latest/box/rootfs"
    );
    assert_eq!(g.image_root(), g.container_path());
    assert_eq!(g.container_name(), "box");
    assert_eq!(g.image_name(), "library/debian");
    assert_eq!(g.image_tag(), "latest");
    assert_eq!(g.workdir_path(), "/tmp/image_downloader/");
    assert!(!g.shows_progress());
    let g = g.workdir("/tmp/orca/image").display_progress(true);
    assert_eq!(g.workdir_path(), "/tmp/orca/image");
    assert!(g.shows_progress());
}

#[test]
fn guest_image_name_without_slash_is_kept() {
    let g = GuestImage::new("/p", "debian", "12", "c");
    assert_eq!(g.image_path(), "/p/debian/12/rootfs");
    assert_eq!(g.container_path(), "/p/debian/12/c/rootfs");
}

#[test]
fn guest_image_surface() {
    let g = GuestImage::new("/p", "debian", "12", "c");
    assert_eq!(g.rootfs_path(), "/p/debian/12/c/rootfs");
    assert_eq!(g.name(), "c");
    assert!(g.need_userns());
    let got: Vec<_> = g.mount().iter().map(describe).collect();
    assert_eq!(
        got,
        vec![(
            "/p/debian/12/c/rootfs".to_string(),
            Some("/p/debian/12/c/rootfs".to_string()),
            None,
            MS_BIND,
            None,
            FileType::Dir
        )]
    );
}

#[test]
fn guest_image_plans_its_download_and_its_container() {
    let g = GuestImage::new("/p", "debian", "12", "c").workdir("/w");
    let d = g.download();
    assert_eq!(
        d.manifest_url(),
        "https://registry-1.docker.io/v2/library/debian/manifests/12"
    );
    assert_eq!(d.dirs_to_create(), vec!["/w", "/p/debian/12/rootfs"]);
    assert_eq!(
        g.create_container_image().merge(),
        vec![(
            "/p/debian/12/rootfs".to_string(),
            "/p/debian/12/c/rootfs".to_string()
        )]
    );
}

#[test]
fn progress_lines() {
    assert_eq!(
        display_pre_download("debian", "latest"),
        "Download container image: debian:latest "
    );
    assert_eq!(display_post_download(5, 2), "2/5 layer has downloaded");
    assert_eq!(display_post_download(12, 0), "0/12 layer has downloaded");
}

#[test]
fn downloader_addresses() {
    let d = ImageDownloader::new("debian", "latest", "/store", "/work");
    assert_eq!(
        d.token_url(),
        "https://auth.docker.io/token?service=registry.docker.io&scope=repository:library/debian:pull"
    );
    assert_eq!(
        d.manifest_url(),
        "https://registry-1.docker.io/v2/library/debian/manifests/latest"
    );
    assert_eq!(
        d.blob_url("sha256:abc"),
        "https://registry-1.docker.io/v2/library/debian/blobs/sha256:abc"
    );
    let d = ImageDownloader::new("nomlab/orca", "v1", "/store", "/work");
    assert_eq!(
        d.manifest_url(),
        "https://registry-1.docker.io/v2/nomlab/orca/manifests/v1"
    );
    assert_eq!(
        MANIFEST_MEDIA_TYPE,
        "application/vnd.docker.distribution.manifest.v2+json"
    );
}

#[test]
fn downloader_plans_one_fetch_per_layer() {
    let d = ImageDownloader::new("debian", "latest", "/store", "/work");
    let ids = vec!["sha256:aa".to_string(), "sha256:bb".to_string()];
    assert_eq!(
        d.download_from_dockerhub(&ids),
        vec![
            (
                "https://registry-1.docker.io/v2/library/debian/blobs/sha256:aa".to_string(),
                "/work/image_0".to_string()
            ),
            (
                "https://registry-1.docker.io/v2/library/debian/blobs/sha256:bb".to_string(),
                "/work/image_1".to_string()
            ),
        ]
    );
    assert_eq!(d.download_from_dockerhub(&vec![]), vec![]);
}

#[test]
fn downloader_numbers_layers_in_decimal() {
    let d = ImageDownloader::new("debian", "latest", "/store", "/work");
    let ids: Vec<String> = (0..12).map(|i| format!("d{}", i)).collect();
    let plan = d.download_from_dockerhub(&ids);
    assert_eq!(plan[10].1, "/work/image_10");
    assert_eq!(plan[11].1, "/work/image_11");
}

#[test]
fn merger_lays_layers_in_order() {
    let m = ImageMerger::new("/lower")
        .add_layer("/u0")
        .add_layers(vec!["/u1".to_string(), "/u2".to_string()])
        .add_layer("/u3");
    let plan = m.merge();
    let expected: Vec<(String, String)> = ["/u0", "/u1", "/u2", "/u3"]
        .iter()
        .map(|u| (u.to_string(), "/lower".to_string()))
        .collect();
    assert_eq!(plan, expected);
    assert_eq!(ImageMerger::new("/lower").merge(), vec![]);
}

#[test]
fn whiteout_names() {
    assert_eq!(is_wh_file(Some(".wh.foo")), Some("foo".to_string()));
    assert_eq!(is_wh_file(Some(".wh.")), Some("".to_string()));
    assert_eq!(is_wh_file(Some(".wh..wh..opq")), Some(".wh..opq".to_string()));
    assert_eq!(is_wh_file(Some("foo")), None);
    assert_eq!(is_wh_file(Some(".wh")), None);
    assert_eq!(is_wh_file(Some("a.wh.b")), None);
    assert_eq!(is_wh_file(None), None);
    assert!(is_opq_file(Some(".wh..wh..opq")));
    assert!(!is_opq_file(Some(".wh..wh..opq2")));
    assert!(!is_opq_file(Some(".wh.foo")));
    assert!(!is_opq_file(None));
}

fn same_step(a: &LayerStep, b: &LayerStep) -> bool {
    match (a, b) {
        (LayerStep::Skip, LayerStep::Skip) => true,
        (LayerStep::CopyFile, LayerStep::CopyFile) => true,
        (LayerStep::CopySymlink { replace: x }, LayerStep::CopySymlink { replace: y }) => x == y,
        (LayerStep::CopyDir { replace: x }, LayerStep::CopyDir { replace: y }) => x == y,
        (LayerStep::RemoveSibling { name: x }, LayerStep::RemoveSibling { name: y }) => x == y,
        _ => false,
    }
}

#[test]
fn layer_entries() {
    let cases = vec![
        (EntryKind::Symlink, Some("l"), false, false, LayerStep::CopySymlink { replace: false }),
        (EntryKind::Symlink, Some("l"), true, false, LayerStep::CopySymlink { replace: true }),
        (EntryKind::File, Some(".wh..wh..opq"), true, false, LayerStep::Skip),
        (
            EntryKind::File,
            Some(".wh.gone"),
            false,
            false,
            LayerStep::RemoveSibling { name: "gone".to_string() },
        ),
        (EntryKind::File, Some("kept"), true, false, LayerStep::CopyFile),
        (EntryKind::File, None, false, false, LayerStep::CopyFile),
        (EntryKind::Dir, Some("d"), false, false, LayerStep::CopyDir { replace: false }),
        (EntryKind::Dir, Some("d"), false, true, LayerStep::CopyDir { replace: false }),
        (EntryKind::Dir, Some("d"), true, true, LayerStep::CopyDir { replace: true }),
        (EntryKind::Dir, Some("d"), true, false, LayerStep::Skip),
        (EntryKind::Other, Some("dev"), true, true, LayerStep::Skip),
    ];
    for (kind, name, exists, opaque, expected) in cases {
        let got = copy_layer(kind, name, exists, opaque);
        assert!(
            same_step(&got, &expected),
            "{:?} {:?} {} {}: got {:?}",
            kind,
            name,
            exists,
            opaque,
            got
        );
    }
}
