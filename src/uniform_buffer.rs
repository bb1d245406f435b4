use vstd::prelude::*;

use crate::error::GlError;
use crate::resource::ShaderProgram;

verus! {

/// The uniform-buffer binding point that every block is bound to.
pub const UBO_BINDING: u32 = 0;

/// A range of a buffer bound to an indexed uniform-buffer binding point.
#[derive(Debug, Clone, Copy, PartialEq, Eq)]
pub struct BufferRange {
    pub buffer: u32,
    pub binding: u32,
    pub offset: isize,
    pub size: isize,
}

/// A fixed-size block of shader constants shared by several programs.
pub struct UniformBuffer {
    id: u32,
    name: String,
    buffer_size: isize,
}

/// Every program in `programs` declares the block `name`.
pub open spec fn all_declare(programs: Seq<&ShaderProgram>, name: Seq<char>) -> bool {
    forall|i: int| 0 <= i < programs.len() ==> #[trigger] programs[i].declares(name)
}

/// `k` is the first program in `programs` that lacks the block `name`.
pub open spec fn first_missing(programs: Seq<&ShaderProgram>, name: Seq<char>, k: int) -> bool {
    &&& 0 <= k < programs.len()
    &&& !programs[k].declares(name)
    &&& forall|j: int| 0 <= j < k ==> #[trigger] programs[j].declares(name)
}

impl UniformBuffer {
    pub closed spec fn spec_id(&self) -> u32 {
        self.id
    }

    pub closed spec fn spec_name(&self) -> Seq<char> {
        self.name@
    }

    pub closed spec fn spec_size(&self) -> isize {
        self.buffer_size
    }

    /// The binding that this buffer occupies.
    pub open spec fn range(&self) -> BufferRange {
        BufferRange { buffer: self.spec_id(), binding: UBO_BINDING, offset: 0, size: self.spec_size() }
    }

    /// Resolves the block `name` in every program, in order, and stops at the
    /// first program that does not declare it. The buffer has no native
    /// handle yet: `create_ubo` records the one the driver allocates.
    pub fn new(shader_programs: Vec<&ShaderProgram>, name: &str, buffer_size: isize) -> (r: Result<
        UniformBuffer,
        GlError,
    >)
        ensures
            r is Ok <==> all_declare(shader_programs@, name@),
            r matches Ok(u) ==> u.spec_id() == 0 && u.spec_name() == name@ && u.spec_size()
                == buffer_size,
            r matches Err(e) ==> exists|k: int|
                first_missing(shader_programs@, name@, k) && e == GlError::UniformBlockNotFound(
                    shader_programs@[k].spec_id(),
                ),
    {
        proof {
            broadcast use vstd::string::to_string_from_display_ensures_for_str;
        }
        let uniform_buffer = UniformBuffer { id: 0, name: name.to_string(), buffer_size };
        let mut i: usize = 0;
        while i < shader_programs.len()
            invariant
                0 <= i <= shader_programs@.len(),
                uniform_buffer.name@ == name@,
                forall|j: int| 0 <= j < i ==> #[trigger] shader_programs@[j].declares(name@),
            decreases shader_programs@.len() - i,
        {
            let res = uniform_buffer.register_shader_program(shader_programs[i]);
            match res {
                Ok(()) => {},
                Err(e) => {
                    assert(first_missing(shader_programs@, name@, i as int));
                    return Err(e);
                },
            }
            i = i + 1;
        }
        Ok(uniform_buffer)
    }

    /// Checks that `shader_program` declares this buffer's block, which the
    /// caller then binds to `UBO_BINDING`.
    pub fn register_shader_program(&self, shader_program: &ShaderProgram) -> (r: Result<(), GlError>)
        ensures
            r is Ok <==> shader_program.declares(self.spec_name()),
            r matches Err(e) ==> e == GlError::UniformBlockNotFound(shader_program.spec_id()),
    {
        if shader_program.declares_block(&self.name) {
            Ok(())
        } else {
            Err(GlError::UniformBlockNotFound(shader_program.get_id()))
        }
    }

    /// Records the handle of the storage the driver allocated and returns
    /// the range to bind.
    pub fn create_ubo(&mut self, id: u32) -> (r: BufferRange)
        ensures
            final(self).spec_id() == id,
            final(self).spec_name() == old(self).spec_name(),
            final(self).spec_size() == old(self).spec_size(),
            r == final(self).range(),
    {
        self.id = id;
        self.bind_ubo()
    }

    /// The range to bind again after another buffer took the binding point.
    pub fn bind_ubo(&self) -> (r: BufferRange)
        ensures
            r == self.range(),
    {
        BufferRange { buffer: self.id, binding: UBO_BINDING, offset: 0, size: self.buffer_size }
    }

    pub fn get_id(&self) -> (r: u32)
        ensures
            r == self.spec_id(),
    {
        self.id
    }

    pub fn get_name(&self) -> (r: &str)
        ensures
            r@ == self.spec_name(),
    {
        self.name.as_str()
    }

    pub fn get_size(&self) -> (r: isize)
        ensures
            r == self.spec_size(),
    {
        self.buffer_size
    }
}

} // verus!
