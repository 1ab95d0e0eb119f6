//! Where the parts of an image are fetched from and where they are put.

use crate::text::{
    concat_text, contains_char, copy_text, decimal, join_path, joined, pairs, push_decimal,
    push_text, strings,
};
use vstd::prelude::*;

verus! {

/// The address that hands out pull tokens, up to the repository's name.
pub const TOKEN_URL: &'static str =
    "https://auth.docker.io/token?service=registry.docker.io&scope=repository:";

/// The address of the registry, up to the repository's name.
pub const REGISTRY_URL: &'static str = "https://registry-1.docker.io/v2/";

/// The media type asked for when fetching a manifest.
pub const MANIFEST_MEDIA_TYPE: &'static str =
    "application/vnd.docker.distribution.manifest.v2+json";

/// The download of one image.
pub struct ImageDownloader {
    image_name: String,
    image_tag: String,
    store_path: String,
    workdir_prefix: String,
}

/// The value of a download.
pub struct Download {
    /// The repository, with its namespace.
    pub image_name: Seq<char>,
    pub image_tag: Seq<char>,
    /// Where the image ends up.
    pub store_path: Seq<char>,
    /// Below which the layers are unpacked.
    pub workdir_prefix: Seq<char>,
}

/// The repository that `name` stands for: a name without a namespace is
/// an official image.
pub open spec fn repository(name: Seq<char>) -> Seq<char> {
    if name.contains('/') {
        name
    } else {
        "library/"@ + name
    }
}

/// The download of image `name` at `tag`.
pub open spec fn image_downloader(
    name: Seq<char>,
    tag: Seq<char>,
    store_path: Seq<char>,
    workdir_prefix: Seq<char>,
) -> Download {
    Download { image_name: repository(name), image_tag: tag, store_path, workdir_prefix }
}

/// The address of the pull token.
pub open spec fn token_url(d: Download) -> Seq<char> {
    TOKEN_URL@ + d.image_name + ":pull"@
}

/// The address of the manifest.
pub open spec fn manifest_url(d: Download) -> Seq<char> {
    REGISTRY_URL@ + d.image_name + "/manifests/"@ + d.image_tag
}

/// The address of a layer.
pub open spec fn blob_url(d: Download, digest: Seq<char>) -> Seq<char> {
    REGISTRY_URL@ + d.image_name + "/blobs/"@ + digest
}

/// Where the layer at index `i` is unpacked.
pub open spec fn layer_dir(d: Download, i: nat) -> Seq<char> {
    joined(d.workdir_prefix, "image_"@ + decimal(i))
}

/// What to fetch for the layers `digests`, in order: the address of each
/// and the directory it is unpacked to.
pub open spec fn layer_downloads(d: Download, digests: Seq<Seq<char>>) -> Seq<
    (Seq<char>, Seq<char>),
> {
    Seq::new(digests.len(), |i: int| (blob_url(d, digests[i]), layer_dir(d, i as nat)))
}

impl View for ImageDownloader {
    type V = Download;

    closed spec fn view(&self) -> Download {
        Download {
            image_name: self.image_name@,
            image_tag: self.image_tag@,
            store_path: self.store_path@,
            workdir_prefix: self.workdir_prefix@,
        }
    }
}

impl ImageDownloader {
    pub fn new(image_name: &str, image_tag: &str, store_path: &str, workdir_prefix: &str) -> (r:
        Self)
        ensures
            r@ == image_downloader(image_name@, image_tag@, store_path@, workdir_prefix@),
    {
        let name = if !contains_char(image_name, '/') {
            concat_text("library/", image_name)
        } else {
            copy_text(image_name)
        };
        ImageDownloader {
            image_name: name,
            image_tag: copy_text(image_tag),
            store_path: copy_text(store_path),
            workdir_prefix: copy_text(workdir_prefix),
        }
    }

    /// The address that hands out the token for pulling the image.
    pub fn token_url(&self) -> (url: String)
        ensures
            url@ == token_url(self@),
    {
        let mut url = copy_text(TOKEN_URL);
        push_text(&mut url, self.image_name.as_str());
        push_text(&mut url, ":pull");
        url
    }

    /// The address of the image's manifest.
    pub fn manifest_url(&self) -> (url: String)
        ensures
            url@ == manifest_url(self@),
    {
        let mut url = copy_text(REGISTRY_URL);
        push_text(&mut url, self.image_name.as_str());
        push_text(&mut url, "/manifests/");
        push_text(&mut url, self.image_tag.as_str());
        url
    }

    /// The address of the layer with this digest.
    pub fn blob_url(&self, digest: &str) -> (url: String)
        ensures
            url@ == blob_url(self@, digest@),
    {
        let mut url = copy_text(REGISTRY_URL);
        push_text(&mut url, self.image_name.as_str());
        push_text(&mut url, "/blobs/");
        push_text(&mut url, digest);
        url
    }

    /// The directories that have to exist before the layers are fetched:
    /// the working directory, then the store.
    pub fn dirs_to_create(&self) -> (dirs: Vec<String>)
        ensures
            strings(dirs@) == seq![self@.workdir_prefix, self@.store_path],
    {
        let mut dirs: Vec<String> = Vec::new();
        dirs.push(copy_text(self.workdir_prefix.as_str()));
        dirs.push(copy_text(self.store_path.as_str()));
        assert(strings(dirs@) =~= seq![self@.workdir_prefix, self@.store_path]);
        dirs
    }

    /// What to fetch for the layers that the manifest lists, in order: the
    /// address of each layer and the directory it is unpacked to. The
    /// directories are the layers of the image, lowest first.
    pub fn download_from_dockerhub(&self, layer_ids: &Vec<String>) -> (plan: Vec<(String, String)>)
        ensures
            pairs(plan@) == layer_downloads(self@, strings(layer_ids@)),
    {
        let mut plan: Vec<(String, String)> = Vec::new();
        let mut i: usize = 0;
        while i < layer_ids.len()
            invariant
                i <= layer_ids.len(),
                pairs(plan@) == layer_downloads(self@, strings(layer_ids@)).take(i as int),
            decreases layer_ids.len() - i,
        {
            let mut dir_name = copy_text("image_");
            push_decimal(&mut dir_name, i as u64);
            let store_path = join_path(self.workdir_prefix.as_str(), dir_name.as_str());
            let url = self.blob_url(layer_ids[i].as_str());
            let ghost before = plan@;
            let ghost all = layer_downloads(self@, strings(layer_ids@));
            plan.push((url, store_path));
            assert(strings(layer_ids@)[i as int] == layer_ids@[i as int]@);
            assert(pairs(plan@) =~= pairs(before).push(all[i as int]));
            assert(all.take(i + 1) =~= all.take(i as int).push(all[i as int]));
            i += 1;
        }
        assert(layer_downloads(self@, strings(layer_ids@)).take(layer_ids.len() as int)
            =~= layer_downloads(self@, strings(layer_ids@)));
        plan
    }
}

} // verus!
