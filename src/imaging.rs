//! Camera snapshot settings.
use vstd::prelude::*;

verus! {

/// Where the latest snapshot is written.
pub const IMAGE_PATH: &'static str = "./growpi.image.jpeg";

/// Resolution of a snapshot.
#[derive(Clone, Copy, Debug, PartialEq, Eq, Structural)]
pub enum ImageResolution {
    R1080p,
    R720p,
    R480p,
    R360p,
}

impl ImageResolution {
    /// Width and height in pixels.
    pub open spec fn dimensions(self) -> (u64, u64) {
        match self {
            ImageResolution::R1080p => (1920, 1080),
            ImageResolution::R720p => (1280, 720),
            ImageResolution::R480p => (640, 480),
            ImageResolution::R360p => (480, 360),
        }
    }

    pub fn get_width_height(&self) -> (r: (u64, u64))
        ensures
            r == self.dimensions(),
    {
        match self {
            ImageResolution::R1080p => (1920, 1080),
            ImageResolution::R720p => (1280, 720),
            ImageResolution::R480p => (640, 480),
            ImageResolution::R360p => (480, 360),
        }
    }
}

/// The path of the latest snapshot.
pub fn get_image_path() -> (r: &'static str)
    ensures
        r == IMAGE_PATH,
{
    IMAGE_PATH
}

} // verus!
