//! Lifecycle of the backend texture object created from the GUI's font
//! atlas.
//!
//! The backend allocates the texture lazily on the first frame that needs
//! one; this cache decides when that must happen, records the handle the
//! backend assigned, and on invalidation hands the handle back exactly once
//! so the backend can destroy it. Invalidation is idempotent.

use vstd::prelude::*;

verus! {

/// Cached handle of the font-atlas texture, if one currently exists.
pub struct TextureCache {
    pub handle: Option<u32>,
}

impl TextureCache {
    pub fn new() -> (c: Self)
        ensures
            c.handle is None,
    {
        TextureCache { handle: None }
    }

    /// Whether the backend must create the font texture before this frame
    /// can be drawn.
    pub fn needs_font_texture(&self) -> (r: bool)
        ensures
            r == (self.handle is None),
    {
        self.handle.is_none()
    }

    /// Records the handle of the texture the backend just created.
    pub fn install(&mut self, handle: u32)
        ensures
            final(self).handle == Some(handle),
    {
        self.handle = Some(handle);
    }

    /// Clears the cache and hands back the handle to destroy, if any; a
    /// second call returns `None` and changes nothing.
    pub fn invalidate(&mut self) -> (r: Option<u32>)
        ensures
            r == old(self).handle,
            final(self).handle is None,
    {
        let r = self.handle;
        self.handle = None;
        r
    }
}

} // verus!
