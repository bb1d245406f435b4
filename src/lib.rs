//! Bookkeeping for off-screen render targets, instanced models and uniform
//! blocks on top of a named-object graphics API.
//!
//! The library decides which attachments, draw buffers, draw calls and
//! binding ranges a caller must issue; the caller hands in the handles that
//! the driver allocated and performs the native calls.
mod error;
mod framebuffer;
mod model;
mod resource;
mod uniform_buffer;

pub use error::GlError;
pub use resource::{RenderBuffer, ShaderProgram, Texture};
pub use uniform_buffer::{all_declare, first_missing, BufferRange, UniformBuffer, UBO_BINDING};
pub use model::{
    command_of, draws_mesh, draws_meshes, mesh_commands, mesh_draws, texture_ids, BindlessModel,
    DrawCall, DrawCommand, Mesh, ModelBuffers, ModelCreateTrait, ModelTrait, MultiBindModel,
};
pub use framebuffer::{
    handles, link_appends_outputs, link_lists_attachments_in_slot_order,
    resize_reaches_every_attachment, unlinked_draw_binds_nothing, Framebuffer, COLOR_ATTACHMENT0,
    FRAMEBUFFER_COMPLETE, MAX_COLOR_SLOTS,
};
