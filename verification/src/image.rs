//! Raster images as the scene refers to them.

use vstd::prelude::*;

verus! {

/// How an image is sampled when it is drawn at another size.
#[derive(Clone, Copy, Debug, PartialEq, Eq, Structural)]
pub enum FilterMode {
    Linear,
    Nearest,
}

/// A decoded raster resource held by the host, named by the handle under
/// which the host keeps it, together with its sampling filter.
///
/// The filter belongs to the image, not to a draw: it is chosen when the
/// image is loaded and every later draw of the image finds it unchanged.
#[derive(Clone, Copy, Debug, PartialEq, Eq, Structural)]
pub struct Image {
    pub handle: u32,
    pub filter: FilterMode,
}

impl Image {
    /// A freshly loaded image, sampled linearly.
    pub fn new(handle: u32) -> (image: Image)
        ensures
            image == (Image { handle, filter: FilterMode::Linear }),
    {
        Image { handle, filter: FilterMode::Linear }
    }

    /// Chooses the sampling filter and leaves the handle alone.
    pub fn set_filter(&mut self, mode: FilterMode)
        ensures
            *final(self) == (Image { handle: old(self).handle, filter: mode }),
    {
        self.filter = mode;
    }
}

} // verus!
