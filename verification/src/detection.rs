//! The interface through which a detection backend reports face regions.

use vstd::prelude::*;

verus! {

/// A rectangular image region in which a face was found.
///
/// Coordinates are in pixels; a region may extend past an image's edges,
/// so they are signed.
#[derive(Clone, Copy, PartialEq, Eq, Structural, Debug)]
pub struct FaceLocation {
    pub left: i64,
    pub top: i64,
    pub right: i64,
    pub bottom: i64,
}

/// All face regions found in one image, in the order the backend reported
/// them.
pub type FaceLocations = Vec<FaceLocation>;

/// An owned, in-memory image handed to a detection backend.
///
/// The pixel buffer's layout (channel order, bytes per pixel, row order) is
/// defined by the backend consuming it and is opaque here.
pub struct ImageMatrix {
    pub width: usize,
    pub height: usize,
    pub pixels: Vec<u8>,
}

/// A detection backend: given an image, it reports zero or more face
/// regions.
///
/// The receiver is mutable because a backend may keep reusable scratch
/// state (such as inference buffers); the call has no caller-visible effect
/// on the image. Callers sharing one backend across threads must serialize
/// their calls.
pub trait FaceDetectorTrait {
    /// Detect face rectangles from an image.
    fn face_locations(&mut self, image: &ImageMatrix) -> FaceLocations;
}

} // verus!
