use vstd::prelude::*;

verus! {

/// A color texture owned by the driver, known here by its handle.
pub struct Texture {
    pub id: u32,
}

impl Texture {
    pub fn new(id: u32) -> (r: Texture)
        ensures
            r.id == id,
    {
        Texture { id }
    }

    pub fn get_id(&self) -> (r: u32)
        ensures
            r == self.id,
    {
        self.id
    }
}

/// A combined depth/stencil render buffer and the size it was last given.
pub struct RenderBuffer {
    pub id: u32,
    pub width: i32,
    pub height: i32,
}

impl RenderBuffer {
    pub fn new(id: u32, width: i32, height: i32) -> (r: RenderBuffer)
        ensures
            r.id == id,
            r.width == width,
            r.height == height,
    {
        RenderBuffer { id, width, height }
    }

    pub fn get_id(&self) -> (r: u32)
        ensures
            r == self.id,
    {
        self.id
    }
}

/// A linked shader program: its handle and the names of the uniform blocks
/// that it declares.
pub struct ShaderProgram {
    id: u32,
    uniform_blocks: Vec<String>,
}

impl ShaderProgram {
    /// The names of the uniform blocks this program declares.
    pub closed spec fn blocks(&self) -> Seq<Seq<char>> {
        self.uniform_blocks@.map_values(|s: String| s@)
    }

    pub closed spec fn spec_id(&self) -> u32 {
        self.id
    }

    /// Whether the program declares a uniform block named `name`.
    pub open spec fn declares(&self, name: Seq<char>) -> bool {
        self.blocks().contains(name)
    }

    pub fn new(id: u32, uniform_blocks: Vec<String>) -> (r: ShaderProgram)
        ensures
            r.spec_id() == id,
            r.blocks() == uniform_blocks@.map_values(|s: String| s@),
    {
        ShaderProgram { id, uniform_blocks }
    }

    pub fn get_id(&self) -> (r: u32)
        ensures
            r == self.spec_id(),
    {
        self.id
    }

    /// Looks `name` up among the declared uniform blocks.
    pub fn declares_block(&self, name: &String) -> (r: bool)
        ensures
            r == self.declares(name@),
    {
        let mut i: usize = 0;
        while i < self.uniform_blocks.len()
            invariant
                0 <= i <= self.uniform_blocks@.len(),
                forall|j: int| 0 <= j < i ==> self.blocks()[j] != name@,
            decreases self.uniform_blocks@.len() - i,
        {
            if self.uniform_blocks[i] == *name {
                assert(self.blocks()[i as int] == name@);
                return true;
            }
            i = i + 1;
        }
        assert(!self.blocks().contains(name@)) by {
            if self.blocks().contains(name@) {
                let k = choose|k: int| 0 <= k < self.blocks().len() && self.blocks()[k] == name@;
                assert(0 <= k < i);
            }
        }
        false
    }
}

} // verus!
