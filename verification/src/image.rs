//! Container images: what a root file system has to offer so that a
//! container can be launched on it.

pub mod guest_image;
pub mod host_image;

use crate::mount::Mount;
use vstd::prelude::*;

pub use guest_image::GuestImage;
pub use host_image::HostImage;

verus! {

/// The root file system of a container.
pub trait ContainerImage {
    /// The mounts that set up the root file system, in the order in which
    /// they are made. Once they are made the root can be pivoted into.
    fn mount(&self) -> Vec<Mount>;

    /// The path that the child pivots to.
    fn rootfs_path(&self) -> String;

    /// A short label, used as the host name inside the container.
    fn name(&self) -> String;

    /// Whether the image needs an unprivileged user namespace.
    fn need_userns(&self) -> bool;
}

} // verus!
