use std::rc::Rc;
use vstd::prelude::*;

use crate::error::GlError;
use crate::model::{texture_ids, DrawCall, ModelTrait, MultiBindModel, draws_meshes};
use crate::resource::{RenderBuffer, Texture};

verus! {

/// The attachment point of the first color attachment; slot `i` is this
/// value plus `i`.
pub const COLOR_ATTACHMENT0: u32 = 0x8CE0;

/// The status the driver reports for a complete render target.
pub const FRAMEBUFFER_COMPLETE: u32 = 0x8CD5;

/// The most color attachments whose slot numbers fit in a `u32`.
pub const MAX_COLOR_SLOTS: u32 = 0xFFFF_FFFF - COLOR_ATTACHMENT0;

/// The handles of the textures in `ts`, in order.
pub open spec fn handles(ts: Seq<Texture>) -> Seq<u32> {
    ts.map_values(|t: Texture| t.id)
}

/// An off-screen render target: its color textures, which it shares with
/// the targets they are linked into, the attachment slot of each, an
/// optional depth/stencil buffer, and a one-mesh quad whose textures are
/// the inputs linked into this target.
pub struct Framebuffer {
    id: u32,
    textures: Vec<Rc<Texture>>,
    draw_buffers: Vec<u32>,
    quad: MultiBindModel,
    width: i32,
    height: i32,
    render_buffer: Option<RenderBuffer>,
}

impl Framebuffer {
    pub closed spec fn spec_id(&self) -> u32 {
        self.id
    }

    /// The color textures this target renders into, in slot order.
    pub closed spec fn outputs(&self) -> Seq<Rc<Texture>> {
        self.textures@
    }

    /// The attachment slot of each color texture.
    pub closed spec fn slots(&self) -> Seq<u32> {
        self.draw_buffers@
    }

    /// The quad that composites the linked inputs.
    pub closed spec fn quad_view(&self) -> MultiBindModel {
        self.quad
    }

    /// The depth/stencil buffer, if the target has one.
    pub closed spec fn depth(&self) -> Option<RenderBuffer> {
        self.render_buffer
    }

    pub closed spec fn spec_width(&self) -> i32 {
        self.width
    }

    pub closed spec fn spec_height(&self) -> i32 {
        self.height
    }

    /// The textures linked into this target as inputs of its quad.
    pub open spec fn inputs(&self) -> Seq<Rc<Texture>> {
        self.quad_view().meshes@[0].diffuse_textures@
    }

    /// Texture `i` sits at color slot `i`, the quad has one mesh, and the
    /// depth/stencil buffer has the target's size.
    pub open spec fn wf(&self) -> bool {
        &&& self.outputs().len() == self.slots().len()
        &&& self.outputs().len() <= MAX_COLOR_SLOTS
        &&& forall|i: int|
            0 <= i < self.slots().len() ==> #[trigger] self.slots()[i] == COLOR_ATTACHMENT0 + i
        &&& self.quad_view().meshes@.len() == 1
        &&& self.depth() matches Some(rb) ==> rb.width == self.spec_width() && rb.height
            == self.spec_height()
    }

    /// A target of the given size with no attachments and no handle yet.
    pub fn new_default(width: i32, height: i32, quad: MultiBindModel) -> (r: Framebuffer)
        requires
            quad.meshes@.len() == 1,
        ensures
            r.wf(),
            r.spec_id() == 0,
            r.spec_width() == width,
            r.spec_height() == height,
            r.outputs().len() == 0,
            r.depth() is None,
            r.quad_view() == quad,
    {
        Framebuffer {
            id: 0,
            textures: Vec::new(),
            draw_buffers: Vec::new(),
            quad,
            width,
            height,
            render_buffer: None,
        }
    }

    /// Attaches `textures` at the next color slots, in order, and records
    /// each slot in the draw-buffer list.
    pub fn gen_textures(&mut self, textures: Vec<Texture>)
        requires
            old(self).wf(),
            old(self).outputs().len() + textures@.len() <= MAX_COLOR_SLOTS,
        ensures
            final(self).wf(),
            texture_ids(final(self).outputs()) == texture_ids(old(self).outputs()) + handles(
                textures@,
            ),
            final(self).spec_id() == old(self).spec_id(),
            final(self).spec_width() == old(self).spec_width(),
            final(self).spec_height() == old(self).spec_height(),
            final(self).depth() == old(self).depth(),
            final(self).quad_view() == old(self).quad_view(),
    {
        let ghost old_ids = texture_ids(self.textures@);
        let mut textures = textures;
        let ghost given = textures@;
        let mut k: usize = 0;
        while textures.len() > 0
            invariant
                self.wf(),
                k + textures@.len() == given.len(),
                textures@ == given.subrange(k as int, given.len() as int),
                texture_ids(self.textures@) == old_ids + handles(given.subrange(0, k as int)),
                self.textures@.len() + textures@.len() <= MAX_COLOR_SLOTS,
                given.len() <= MAX_COLOR_SLOTS,
                self.id == old(self).id,
                self.width == old(self).width,
                self.height == old(self).height,
                self.render_buffer == old(self).render_buffer,
                self.quad == old(self).quad,
            decreases textures@.len(),
        {
            let texture = textures.remove(0);
            let attachment = COLOR_ATTACHMENT0 + self.textures.len() as u32;
            self.textures.push(Rc::new(texture));
            self.draw_buffers.push(attachment);
            proof {
                let prev = given.subrange(0, k as int);
                assert(given.subrange(0, k + 1) =~= prev.push(given[k as int]));
                assert(handles(prev.push(given[k as int])) =~= handles(prev).push(texture.id));
                assert(texture_ids(self.textures@) =~= texture_ids(self.textures@.drop_last()).push(
                    texture.id,
                ));
                assert(old_ids + handles(prev).push(texture.id) =~= (old_ids + handles(prev)).push(
                    texture.id,
                ));
            }
            k = k + 1;
        }
        assert(given.subrange(0, k as int) == given);
    }

    /// Gives the target the depth/stencil buffer with handle `id`, sized
    /// like the target.
    pub fn gen_render_buffer(&mut self, id: u32)
        requires
            old(self).wf(),
        ensures
            final(self).wf(),
            final(self).depth() == Some(
                RenderBuffer { id, width: old(self).spec_width(), height: old(self).spec_height() },
            ),
            final(self).spec_id() == old(self).spec_id(),
            final(self).outputs() == old(self).outputs(),
            final(self).slots() == old(self).slots(),
            final(self).spec_width() == old(self).spec_width(),
            final(self).spec_height() == old(self).spec_height(),
            final(self).quad_view() == old(self).quad_view(),
    {
        self.render_buffer = Some(RenderBuffer::new(id, self.width, self.height));
    }

    /// Turns the status the driver reported for this target into a result.
    pub fn check_status(&self, status: u32) -> (r: Result<(), GlError>)
        ensures
            r is Ok <==> status == FRAMEBUFFER_COMPLETE,
            r matches Err(e) ==> e == GlError::FramebufferNotComplete(self.spec_id()),
    {
        if status == FRAMEBUFFER_COMPLETE {
            Ok(())
        } else {
            Err(GlError::FramebufferNotComplete(self.id))
        }
    }

    /// The target with handle `id` and the given size, with `textures`
    /// attached at slots 0, 1, ... and, if `render_buffer` names one, a
    /// depth/stencil buffer. Its completeness is checked afterwards with
    /// `check_status`, once every attachment is bound.
    pub fn new(
        id: u32,
        width: i32,
        height: i32,
        textures: Vec<Texture>,
        render_buffer: Option<u32>,
        quad: MultiBindModel,
    ) -> (r: Framebuffer)
        requires
            textures@.len() <= MAX_COLOR_SLOTS,
            quad.meshes@.len() == 1,
        ensures
            r.wf(),
            r.spec_id() == id,
            r.spec_width() == width,
            r.spec_height() == height,
            texture_ids(r.outputs()) == handles(textures@),
            r.depth() == (match render_buffer {
                Some(rb) => Some(RenderBuffer { id: rb, width, height }),
                None => None,
            }),
            r.quad_view() == quad,
    {
        let mut framebuffer = Framebuffer::new_default(width, height, quad);
        framebuffer.id = id;
        framebuffer.gen_textures(textures);
        assert(texture_ids(Seq::<Rc<Texture>>::empty()) =~= Seq::<u32>::empty());
        assert(Seq::<u32>::empty() + handles(textures@) =~= handles(textures@));
        match render_buffer {
            Some(rb) => framebuffer.gen_render_buffer(rb),
            None => {},
        }
        framebuffer
    }

    /// The color textures, shared with the caller, in slot order.
    pub fn get_link(&self) -> (r: Vec<Rc<Texture>>)
        ensures
            r@ == self.outputs(),
    {
        let mut result: Vec<Rc<Texture>> = Vec::new();
        let mut i: usize = 0;
        while i < self.textures.len()
            invariant
                0 <= i <= self.textures@.len(),
                result@ == self.textures@.subrange(0, i as int),
            decreases self.textures@.len() - i,
        {
            result.push(Rc::clone(&self.textures[i]));
            assert(self.textures@.subrange(0, i + 1) =~= self.textures@.subrange(0, i as int).push(
                self.textures@[i as int],
            ));
            i = i + 1;
        }
        assert(self.textures@.subrange(0, i as int) =~= self.textures@);
        result
    }

    /// `other` has the handle, attachments, size and depth buffer of `self`.
    pub open spec fn same_targets(&self, other: &Framebuffer) -> bool {
        &&& other.spec_id() == self.spec_id()
        &&& other.outputs() == self.outputs()
        &&& other.slots() == self.slots()
        &&& other.spec_width() == self.spec_width()
        &&& other.spec_height() == self.spec_height()
        &&& other.depth() == self.depth()
    }

    /// `other`'s quad is that of `self` but for the textures of its mesh.
    pub open spec fn same_quad_shape(&self, other: &Framebuffer) -> bool {
        &&& other.quad_view().buffers == self.quad_view().buffers
        &&& other.quad_view().transform_count == self.quad_view().transform_count
        &&& other.quad_view().meshes@.len() == self.quad_view().meshes@.len()
        &&& other.quad_view().meshes@[0].count == self.quad_view().meshes@[0].count
        &&& other.quad_view().meshes@[0].offset == self.quad_view().meshes@[0].offset
    }

    /// Adds one texture to the end of the inputs.
    pub fn link_push(&mut self, texture: Rc<Texture>)
        requires
            old(self).wf(),
        ensures
            final(self).wf(),
            final(self).inputs() == old(self).inputs().push(texture),
            old(self).same_targets(final(self)),
            old(self).same_quad_shape(final(self)),
    {
        self.quad.add_texture(0, texture);
    }

    /// Appends `output` to the inputs, keeping those linked before.
    pub fn link_to(&mut self, output: Vec<Rc<Texture>>)
        requires
            old(self).wf(),
        ensures
            final(self).wf(),
            final(self).inputs() == old(self).inputs() + output@,
            old(self).same_targets(final(self)),
            old(self).same_quad_shape(final(self)),
    {
        let mut output = output;
        let ghost given = output@;
        let n: usize = output.len();
        let mut k: usize = 0;
        while output.len() > 0
            invariant
                self.wf(),
                given.len() == n,
                k + output@.len() == given.len(),
                output@ == given.subrange(k as int, given.len() as int),
                self.inputs() == old(self).inputs() + given.subrange(0, k as int),
                old(self).same_targets(self),
                old(self).same_quad_shape(self),
            decreases output@.len(),
        {
            let texture = output.remove(0);
            self.link_push(texture);
            assert(given.subrange(0, k + 1) =~= given.subrange(0, k as int).push(texture));
            assert(old(self).inputs() + given.subrange(0, k as int).push(texture) =~= (old(
                self,
            ).inputs() + given.subrange(0, k as int)).push(texture));
            k = k + 1;
        }
        assert(given.subrange(0, k as int) =~= given);
    }

    /// Appends the color textures of `framebuffer` to the inputs of `self`,
    /// keeping those linked before: a pipeline may feed one pass from
    /// several. Use `unlink` to start over.
    pub fn link_to_fb(&mut self, framebuffer: &Framebuffer)
        requires
            old(self).wf(),
        ensures
            final(self).wf(),
            final(self).inputs() == old(self).inputs() + framebuffer.outputs(),
            old(self).same_targets(final(self)),
            old(self).same_quad_shape(final(self)),
    {
        self.link_to(framebuffer.get_link());
    }

    /// Removes every input.
    pub fn unlink(&mut self)
        requires
            old(self).wf(),
        ensures
            final(self).wf(),
            final(self).inputs().len() == 0,
            old(self).same_targets(final(self)),
            old(self).same_quad_shape(final(self)),
    {
        self.quad.clear_textures(0);
    }

    /// The inputs linked into this target, in the order they were linked.
    pub fn get_inputs(&self) -> (r: &Vec<Rc<Texture>>)
        requires
            self.wf(),
        ensures
            r@ == self.inputs(),
    {
        &self.quad.meshes[0].diffuse_textures
    }

    /// The color texture at slot `index`, if there is one.
    pub fn get(&self, index: usize) -> (r: Option<Rc<Texture>>)
        ensures
            index < self.outputs().len() ==> r == Some(self.outputs()[index as int]),
            index >= self.outputs().len() ==> r is None,
    {
        if index < self.textures.len() {
            Some(Rc::clone(&self.textures[index]))
        } else {
            None
        }
    }

    /// The number of color textures.
    pub fn len(&self) -> (r: usize)
        ensures
            r == self.outputs().len(),
    {
        self.textures.len()
    }

    /// The attachment slot of each color texture, in order.
    pub fn get_draw_buffers(&self) -> (r: &Vec<u32>)
        ensures
            r@ == self.slots(),
    {
        &self.draw_buffers
    }

    /// The draws that composite the inputs through the quad, issued with
    /// this target bound and the caller's shader program in use.
    pub fn draw(&self) -> (r: Vec<DrawCall>)
        requires
            self.wf(),
        ensures
            draws_meshes(r@, self.quad_view().meshes@, self.quad_view().transform_count),
            r@.len() == 1,
            r@[0].textures@ == texture_ids(self.inputs()),
    {
        let r = self.quad.draw();
        assert(crate::model::draws_mesh(r@[0], self.quad.meshes@[0], self.quad.transform_count));
        r
    }

    pub fn get_size(&self) -> (r: (i32, i32))
        ensures
            r == (self.spec_width(), self.spec_height()),
    {
        (self.width, self.height)
    }

    /// Gives the target, its depth/stencil buffer and every color texture
    /// the new size; the handles of the textures to resize natively are
    /// returned in slot order. Attachments, slots and inputs are kept.
    pub fn set_size(&mut self, width: i32, height: i32) -> (r: Vec<u32>)
        requires
            old(self).wf(),
        ensures
            final(self).wf(),
            final(self).spec_width() == width,
            final(self).spec_height() == height,
            r@ == texture_ids(final(self).outputs()),
            final(self).depth() == (match old(self).depth() {
                Some(rb) => Some(RenderBuffer { id: rb.id, width, height }),
                None => None,
            }),
            final(self).spec_id() == old(self).spec_id(),
            final(self).outputs() == old(self).outputs(),
            final(self).slots() == old(self).slots(),
            final(self).quad_view() == old(self).quad_view(),
    {
        self.width = width;
        self.height = height;
        match &self.render_buffer {
            Some(rb) => {
                let id = rb.id;
                self.render_buffer = Some(RenderBuffer::new(id, width, height));
            },
            None => {},
        }
        let mut ids: Vec<u32> = Vec::new();
        let mut i: usize = 0;
        while i < self.textures.len()
            invariant
                0 <= i <= self.textures@.len(),
                ids@ == texture_ids(self.textures@.subrange(0, i as int)),
            decreases self.textures@.len() - i,
        {
            ids.push(self.textures[i].id);
            assert(texture_ids(self.textures@.subrange(0, i + 1)) =~= texture_ids(
                self.textures@.subrange(0, i as int),
            ).push(self.textures@[i as int].id));
            i = i + 1;
        }
        assert(self.textures@.subrange(0, i as int) =~= self.textures@);
        ids
    }

    /// The depth/stencil buffer, if the target has one.
    pub fn get_render_buffer(&self) -> (r: &Option<RenderBuffer>)
        ensures
            *r == self.depth(),
    {
        &self.render_buffer
    }

    pub fn get_id(&self) -> (r: u32)
        ensures
            r == self.spec_id(),
    {
        self.id
    }

    /// The quad model that composites the inputs.
    pub fn get_quad(&self) -> (r: &MultiBindModel)
        ensures
            *r == self.quad_view(),
    {
        &self.quad
    }
}


/// A target made with N textures hands out exactly N through `get_link`,
/// the texture at position `i` being the `i`-th one given, attached at
/// color slot `i`.
pub proof fn link_lists_attachments_in_slot_order(
    fb: Framebuffer,
    textures: Seq<Texture>,
    link: Seq<Rc<Texture>>,
)
    requires
        fb.wf(),
        texture_ids(fb.outputs()) == handles(textures),
        link == fb.outputs(),
    ensures
        link.len() == textures.len(),
        forall|i: int|
            0 <= i < textures.len() ==> #[trigger] link[i].id == textures[i].id && fb.slots()[i]
                == COLOR_ATTACHMENT0 + i,
{
    assert(texture_ids(fb.outputs()).len() == fb.outputs().len());
    assert(handles(textures).len() == textures.len());
    assert forall|i: int| 0 <= i < textures.len() implies #[trigger] link[i].id == textures[i].id
        && fb.slots()[i] == COLOR_ATTACHMENT0 + i by {
        assert(texture_ids(fb.outputs())[i] == handles(textures)[i]);
        assert(texture_ids(fb.outputs())[i] == fb.outputs()[i].id);
        assert(handles(textures)[i] == textures[i].id);
        assert(link[i].id == textures[i].id);
        assert(fb.slots()[i] == COLOR_ATTACHMENT0 + i);
    }
}

/// Linking target `a` into `b` leaves `b`'s earlier inputs in front and
/// puts exactly `a`'s link list after them.
pub proof fn link_appends_outputs(
    a: Framebuffer,
    b_before: Framebuffer,
    b_after: Framebuffer,
    link: Seq<Rc<Texture>>,
)
    requires
        b_after.inputs() == b_before.inputs() + a.outputs(),
        link == a.outputs(),
    ensures
        b_after.inputs().len() == b_before.inputs().len() + link.len(),
        b_after.inputs().subrange(0, b_before.inputs().len() as int) == b_before.inputs(),
        b_after.inputs().subrange(b_before.inputs().len() as int, b_after.inputs().len() as int)
            == link,
{
    assert(b_after.inputs().subrange(0, b_before.inputs().len() as int) =~= b_before.inputs());
    assert(b_after.inputs().subrange(b_before.inputs().len() as int, b_after.inputs().len() as int)
        =~= link);
}

/// Once a target is unlinked, drawing it binds no input texture.
pub proof fn unlinked_draw_binds_nothing(fb: Framebuffer, draws: Seq<DrawCall>)
    requires
        fb.inputs().len() == 0,
        draws.len() == 1,
        draws[0].textures@ == texture_ids(fb.inputs()),
    ensures
        forall|i: int| 0 <= i < draws.len() ==> (#[trigger] draws[i]).textures@.len() == 0,
{
    assert forall|i: int| 0 <= i < draws.len() implies (#[trigger] draws[i]).textures@.len() == 0 by {
        assert(i == 0);
    }
}

/// After `set_size(w, h)` the target reports size `(w, h)`, every color
/// texture is listed for resizing to it, and the depth/stencil buffer, if
/// any, has size `(w, h)`.
pub proof fn resize_reaches_every_attachment(
    before: Framebuffer,
    after: Framebuffer,
    w: i32,
    h: i32,
    resized: Seq<u32>,
)
    requires
        after.spec_width() == w,
        after.spec_height() == h,
        resized == texture_ids(after.outputs()),
        after.outputs() == before.outputs(),
        after.depth() == (match before.depth() {
            Some(rb) => Some(RenderBuffer { id: rb.id, width: w, height: h }),
            None => None,
        }),
    ensures
        resized.len() == before.outputs().len(),
        forall|i: int| 0 <= i < resized.len() ==> #[trigger] resized[i] == before.outputs()[i].id,
        after.depth() matches Some(rb) ==> rb.width == w && rb.height == h,
        after.depth() is Some <==> before.depth() is Some,
{
}

} // verus!
