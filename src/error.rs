use vstd::prelude::*;

verus! {

/// The failures that the native API reports through status queries.
#[derive(Debug, PartialEq, Eq)]
pub enum GlError {
    /// The render target with this handle failed its completeness check.
    FramebufferNotComplete(u32),
    /// The shader program with this handle declares no uniform block of the
    /// requested name.
    UniformBlockNotFound(u32),
    /// Resizing the texture with this handle failed.
    TextureResizeFailed(u32),
}

} // verus!
