use std::rc::Rc;

use glwrap::{
    Framebuffer, GlError, Mesh, ModelBuffers, ModelCreateTrait, ModelTrait, MultiBindModel,
    RenderBuffer, Texture, COLOR_ATTACHMENT0, FRAMEBUFFER_COMPLETE,
};

const FRAMEBUFFER_INCOMPLETE_MISSING_ATTACHMENT: u32 = 0x8CD7;

fn quad() -> MultiBindModel {
    let buffers = ModelBuffers { vertex_array: 1, vertex_buffer: 2, element_buffer: 3, transform_buffer: 4 };
    MultiBindModel::new(buffers, 1, vec![Mesh::new(6, 0, Vec::new())])
}

fn target(id: u32, first_texture: u32, n: u32, depth: Option<u32>) -> Framebuffer {
    let textures: Vec<Texture> = (0..n).map(|i| Texture::new(first_texture + i)).collect();
    Framebuffer::new(id, 800, 600, textures, depth, quad())
}

fn ids(ts: &[Rc<Texture>]) -> Vec<u32> {
    ts.iter().map(|t| t.get_id()).collect()
}

#[test]
fn link_lists_every_attachment_in_slot_order() {
    let fb = target(7, 10, 3, None);
    let link = fb.get_link();
    assert_eq!(link.len(), 3);
    assert_eq!(ids(&link), vec![10, 11, 12]);
    assert_eq!(fb.len(), 3);
    assert_eq!(
        fb.get_draw_buffers().clone(),
        vec![COLOR_ATTACHMENT0, COLOR_ATTACHMENT0 + 1, COLOR_ATTACHMENT0 + 2]
    );
    assert_eq!(fb.get_id(), 7);
    assert_eq!(fb.get_size(), (800, 600));
}

#[test]
fn get_returns_attachment_or_none() {
    let fb = target(1, 20, 2, None);
    assert_eq!(fb.get(0).map(|t| t.get_id()), Some(20));
    assert_eq!(fb.get(1).map(|t| t.get_id()), Some(21));
    assert!(fb.get(2).is_none());
}

#[test]
fn link_to_fb_appends_outputs() {
    let a = target(1, 10, 2, None);
    let c = target(2, 30, 1, None);
    let mut b = target(3, 50, 1, None);
    b.link_to_fb(&c);
    b.link_to_fb(&a);
    assert_eq!(ids(b.get_inputs()), vec![30, 10, 11]);
    let draws = b.draw();
    assert_eq!(draws.len(), 1);
    assert_eq!(draws[0].textures, vec![30, 10, 11]);
}

#[test]
fn link_to_and_link_push_keep_order() {
    let mut b = target(3, 50, 1, None);
    b.link_push(Rc::new(Texture::new(5)));
    b.link_to(vec![Rc::new(Texture::new(6)), Rc::new(Texture::new(7))]);
    assert_eq!(ids(b.get_inputs()), vec![5, 6, 7]);
}

#[test]
fn unlink_clears_inputs_and_draw_binds_none() {
    let a = target(1, 10, 2, None);
    let mut b = target(2, 20, 1, None);
    b.link_to_fb(&a);
    b.unlink();
    assert!(b.get_inputs().is_empty());
    let draws = b.draw();
    assert_eq!(draws.len(), 1);
    assert!(draws[0].textures.is_empty());
    assert_eq!(draws[0].index_count, 6);
    assert_eq!(draws[0].index_offset, 0);
    assert_eq!(draws[0].instance_count, 1);
}

#[test]
fn set_size_resizes_every_attachment_and_depth() {
    let mut fb = target(1, 10, 3, Some(99));
    assert_eq!(fb.get_render_buffer().as_ref().map(|rb| (rb.width, rb.height)), Some((800, 600)));
    let resized = fb.set_size(1024, 768);
    assert_eq!(resized, vec![10, 11, 12]);
    assert_eq!(fb.get_size(), (1024, 768));
    let rb = fb.get_render_buffer().as_ref().unwrap();
    assert_eq!((rb.get_id(), rb.width, rb.height), (99, 1024, 768));
    assert_eq!(ids(&fb.get_link()), vec![10, 11, 12]);
}

#[test]
fn set_size_without_depth_buffer() {
    let mut fb = target(1, 10, 1, None);
    assert_eq!(fb.set_size(2, 3), vec![10]);
    assert_eq!(fb.get_size(), (2, 3));
    assert!(fb.get_render_buffer().is_none());
}

#[test]
fn empty_target_status_is_decided_by_driver() {
    let fb = target(4, 0, 0, None);
    assert_eq!(fb.len(), 0);
    assert!(fb.get_link().is_empty());
    assert!(fb.get_draw_buffers().is_empty());
    assert!(fb.get_render_buffer().is_none());
    assert_eq!(fb.check_status(FRAMEBUFFER_COMPLETE), Ok(()));
    assert_eq!(
        fb.check_status(FRAMEBUFFER_INCOMPLETE_MISSING_ATTACHMENT),
        Err(GlError::FramebufferNotComplete(4))
    );
}

#[test]
fn gen_render_buffer_takes_target_size() {
    let mut fb = Framebuffer::new_default(640, 480, quad());
    assert_eq!(fb.get_id(), 0);
    fb.gen_textures(vec![Texture::new(3)]);
    fb.gen_textures(vec![Texture::new(4)]);
    fb.gen_render_buffer(8);
    assert_eq!(ids(&fb.get_link()), vec![3, 4]);
    assert_eq!(fb.get_draw_buffers().clone(), vec![COLOR_ATTACHMENT0, COLOR_ATTACHMENT0 + 1]);
    let rb = fb.get_render_buffer().as_ref().unwrap();
    assert_eq!((rb.id, rb.width, rb.height), (8, 640, 480));
    let other = RenderBuffer::new(1, 2, 3);
    assert_eq!((other.get_id(), other.width, other.height), (1, 2, 3));
}

#[test]
fn linked_textures_outlive_their_producer() {
    let mut b = target(2, 20, 1, None);
    {
        let a = target(1, 10, 2, None);
        b.link_to_fb(&a);
        assert_eq!(Rc::strong_count(&b.get_inputs()[0]), 2);
    }
    assert_eq!(Rc::strong_count(&b.get_inputs()[0]), 1);
    assert_eq!(ids(b.get_inputs()), vec![10, 11]);
}
