use std::rc::Rc;
use vstd::prelude::*;

use crate::resource::Texture;

verus! {

/// One mesh of a model: a range of the shared index buffer and the diffuse
/// textures that are bound while it is drawn.
pub struct Mesh {
    pub count: u32,
    pub offset: u32,
    pub diffuse_textures: Vec<Rc<Texture>>,
}

impl Mesh {
    pub fn new(count: u32, offset: u32, diffuse_textures: Vec<Rc<Texture>>) -> (r: Mesh)
        ensures
            r.count == count,
            r.offset == offset,
            r.diffuse_textures@ == diffuse_textures@,
    {
        Mesh { count, offset, diffuse_textures }
    }

    pub fn get_count(&self) -> (r: u32)
        ensures
            r == self.count,
    {
        self.count
    }

    pub fn get_offset(&self) -> (r: u32)
        ensures
            r == self.offset,
    {
        self.offset
    }
}

/// The handles of the texture sequence `ts`, in order.
pub open spec fn texture_ids(ts: Seq<Rc<Texture>>) -> Seq<u32> {
    ts.map_values(|t: Rc<Texture>| t.id)
}

/// One instanced, indexed draw: the textures to bind to units 0, 1, ...,
/// the index range, and the number of instances.
#[derive(Debug, PartialEq, Eq)]
pub struct DrawCall {
    pub textures: Vec<u32>,
    pub index_count: u32,
    pub index_offset: u32,
    pub instance_count: u32,
}

/// The parameters of one indexed indirect draw, laid out as the driver reads
/// them from a command buffer.
#[derive(Debug, Clone, Copy, PartialEq, Eq)]
pub struct DrawCommand {
    pub count: u32,
    pub instance_count: u32,
    pub first_index: u32,
    pub base_vertex: i32,
    pub base_instance: u32,
}

/// `d` draws mesh `m` with `instances` instances.
pub open spec fn draws_mesh(d: DrawCall, m: Mesh, instances: u32) -> bool {
    &&& d.textures@ == texture_ids(m.diffuse_textures@)
    &&& d.index_count == m.count
    &&& d.index_offset == m.offset
    &&& d.instance_count == instances
}

/// `ds` holds exactly one draw per mesh of `ms`, in mesh order.
pub open spec fn draws_meshes(ds: Seq<DrawCall>, ms: Seq<Mesh>, instances: u32) -> bool {
    &&& ds.len() == ms.len()
    &&& forall|i: int| 0 <= i < ms.len() ==> #[trigger] draws_mesh(ds[i], ms[i], instances)
}

/// The indirect command that draws mesh `m` with `instances` instances.
pub open spec fn command_of(m: Mesh, instances: u32) -> DrawCommand {
    DrawCommand {
        count: m.count,
        instance_count: instances,
        first_index: m.offset,
        base_vertex: 0,
        base_instance: 0,
    }
}

/// The handles of the textures in `ts`.
fn ids_of(ts: &Vec<Rc<Texture>>) -> (r: Vec<u32>)
    ensures
        r@ == texture_ids(ts@),
{
    let mut r: Vec<u32> = Vec::new();
    let mut i: usize = 0;
    while i < ts.len()
        invariant
            0 <= i <= ts@.len(),
            r@ == texture_ids(ts@.subrange(0, i as int)),
        decreases ts@.len() - i,
    {
        r.push(ts[i].id);
        assert(ts@.subrange(0, i + 1) == ts@.subrange(0, i as int).push(ts@[i as int]));
        i = i + 1;
    }
    assert(ts@.subrange(0, i as int) == ts@);
    r
}

/// One draw per mesh, each instanced `instances` times.
pub fn mesh_draws(meshes: &Vec<Mesh>, instances: u32) -> (r: Vec<DrawCall>)
    ensures
        draws_meshes(r@, meshes@, instances),
{
    let mut r: Vec<DrawCall> = Vec::new();
    let mut i: usize = 0;
    while i < meshes.len()
        invariant
            0 <= i <= meshes@.len(),
            r@.len() == i,
            forall|j: int| 0 <= j < i ==> #[trigger] draws_mesh(r@[j], meshes@[j], instances),
        decreases meshes@.len() - i,
    {
        let m = &meshes[i];
        let textures = ids_of(&m.diffuse_textures);
        r.push(
            DrawCall { textures, index_count: m.count, index_offset: m.offset, instance_count: instances },
        );
        i = i + 1;
    }
    r
}

/// One indirect command per mesh, each instanced `instances` times.
pub fn mesh_commands(meshes: &Vec<Mesh>, instances: u32) -> (r: Vec<DrawCommand>)
    ensures
        r@.len() == meshes@.len(),
        forall|i: int| 0 <= i < meshes@.len() ==> #[trigger] r@[i] == command_of(meshes@[i], instances),
{
    let mut r: Vec<DrawCommand> = Vec::new();
    let mut i: usize = 0;
    while i < meshes.len()
        invariant
            0 <= i <= meshes@.len(),
            r@.len() == i,
            forall|j: int| 0 <= j < i ==> #[trigger] r@[j] == command_of(meshes@[j], instances),
        decreases meshes@.len() - i,
    {
        r.push(
            DrawCommand {
                count: meshes[i].count,
                instance_count: instances,
                first_index: meshes[i].offset,
                base_vertex: 0,
                base_instance: 0,
            },
        );
        i = i + 1;
    }
    r
}

/// The native objects behind a model: its vertex array and the vertex,
/// index and per-instance transform buffers attached to it.
#[derive(Debug, Clone, Copy, PartialEq, Eq)]
pub struct ModelBuffers {
    pub vertex_array: u32,
    pub vertex_buffer: u32,
    pub element_buffer: u32,
    pub transform_buffer: u32,
}

/// What every model offers: its meshes, the number of instance transforms
/// that all of them share, and the draws that render it.
pub trait ModelTrait {
    spec fn meshes_view(&self) -> Seq<Mesh>;

    spec fn instances_view(&self) -> u32;

    /// What the model keeps consistent beyond its meshes.
    spec fn inv(&self) -> bool;

    /// One instanced draw per mesh, in mesh order.
    fn draw(&self) -> (r: Vec<DrawCall>)
        ensures
            draws_meshes(r@, self.meshes_view(), self.instances_view()),
    ;

    /// The number of transforms in the instance transform buffer.
    fn get_transform_count(&self) -> (r: u32)
        ensures
            r == self.instances_view(),
    ;

    fn get_meshes(&self) -> (r: &Vec<Mesh>)
        ensures
            r@ == self.meshes_view(),
    ;
}

/// Construction of a model from its native objects, the number of instance
/// transforms uploaded to it and its meshes.
pub trait ModelCreateTrait: ModelTrait + Sized {
    fn new(buffers: ModelBuffers, transform_count: u32, meshes: Vec<Mesh>) -> (r: Self)
        ensures
            r.meshes_view() == meshes@,
            r.instances_view() == transform_count,
            r.inv(),
    ;
}

/// A model drawn with one call per mesh, rebinding textures in between.
pub struct MultiBindModel {
    pub meshes: Vec<Mesh>,
    pub buffers: ModelBuffers,
    pub transform_count: u32,
}

impl MultiBindModel {
    /// Appends `texture` to the textures of mesh `mesh`.
    pub fn add_texture(&mut self, mesh: usize, texture: Rc<Texture>)
        requires
            mesh < old(self).meshes@.len(),
        ensures
            final(self).meshes@.len() == old(self).meshes@.len(),
            final(self).meshes@[mesh as int].diffuse_textures@ == old(
                self,
            ).meshes@[mesh as int].diffuse_textures@.push(texture),
            final(self).meshes@[mesh as int].count == old(self).meshes@[mesh as int].count,
            final(self).meshes@[mesh as int].offset == old(self).meshes@[mesh as int].offset,
            forall|j: int|
                0 <= j < old(self).meshes@.len() && j != mesh ==> final(self).meshes@[j] == old(
                    self,
                ).meshes@[j],
            final(self).buffers == old(self).buffers,
            final(self).transform_count == old(self).transform_count,
    {
        let mut m = self.meshes.remove(mesh);
        m.diffuse_textures.push(texture);
        self.meshes.insert(mesh, m);
    }

    /// Removes every texture of mesh `mesh`.
    pub fn clear_textures(&mut self, mesh: usize)
        requires
            mesh < old(self).meshes@.len(),
        ensures
            final(self).meshes@.len() == old(self).meshes@.len(),
            final(self).meshes@[mesh as int].diffuse_textures@.len() == 0,
            final(self).meshes@[mesh as int].count == old(self).meshes@[mesh as int].count,
            final(self).meshes@[mesh as int].offset == old(self).meshes@[mesh as int].offset,
            forall|j: int|
                0 <= j < old(self).meshes@.len() && j != mesh ==> final(self).meshes@[j] == old(
                    self,
                ).meshes@[j],
            final(self).buffers == old(self).buffers,
            final(self).transform_count == old(self).transform_count,
    {
        let mut m = self.meshes.remove(mesh);
        m.diffuse_textures.clear();
        self.meshes.insert(mesh, m);
    }
}

impl ModelTrait for MultiBindModel {
    open spec fn meshes_view(&self) -> Seq<Mesh> {
        self.meshes@
    }

    open spec fn instances_view(&self) -> u32 {
        self.transform_count
    }

    open spec fn inv(&self) -> bool {
        true
    }

    fn draw(&self) -> (r: Vec<DrawCall>) {
        mesh_draws(&self.meshes, self.transform_count)
    }

    fn get_transform_count(&self) -> (r: u32) {
        self.transform_count
    }

    fn get_meshes(&self) -> (r: &Vec<Mesh>) {
        &self.meshes
    }
}

impl ModelCreateTrait for MultiBindModel {
    fn new(buffers: ModelBuffers, transform_count: u32, meshes: Vec<Mesh>) -> (r: Self) {
        MultiBindModel { meshes, buffers, transform_count }
    }
}

/// A model that keeps an indirect command buffer: one command per mesh,
/// each covering the mesh's index range and every instance.
pub struct BindlessModel {
    pub meshes: Vec<Mesh>,
    pub buffers: ModelBuffers,
    pub transform_count: u32,
    pub commands: Vec<DrawCommand>,
}

impl BindlessModel {
    /// The commands agree with the meshes and the instance count.
    pub open spec fn wf(&self) -> bool {
        &&& self.commands@.len() == self.meshes@.len()
        &&& forall|i: int|
            0 <= i < self.meshes@.len() ==> #[trigger] self.commands@[i] == command_of(
                self.meshes@[i],
                self.transform_count,
            )
    }

    /// The commands to upload to the indirect command buffer.
    pub fn get_commands(&self) -> (r: &Vec<DrawCommand>)
        ensures
            r@ == self.commands@,
    {
        &self.commands
    }
}

impl ModelTrait for BindlessModel {
    open spec fn meshes_view(&self) -> Seq<Mesh> {
        self.meshes@
    }

    open spec fn instances_view(&self) -> u32 {
        self.transform_count
    }

    open spec fn inv(&self) -> bool {
        self.wf()
    }

    fn draw(&self) -> (r: Vec<DrawCall>) {
        mesh_draws(&self.meshes, self.transform_count)
    }

    fn get_transform_count(&self) -> (r: u32) {
        self.transform_count
    }

    fn get_meshes(&self) -> (r: &Vec<Mesh>) {
        &self.meshes
    }
}

impl ModelCreateTrait for BindlessModel {
    fn new(buffers: ModelBuffers, transform_count: u32, meshes: Vec<Mesh>) -> (r: Self) {
        let commands = mesh_commands(&meshes, transform_count);
        let r = BindlessModel { meshes, buffers, transform_count, commands };
        assert(r.wf());
        r
    }
}

} // verus!
