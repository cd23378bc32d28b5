//! Compiled avatar modules and the avatar that owns them.
//!
//! An avatar module is one draw-ready unit: its mesh and planned instances
//! kept for CPU-side inspection, the handles of the GPU resources the host
//! created for it, the index and instance counts of its one draw call, and
//! its visibility flag. An avatar is the ordered list of modules compiled
//! from one description; it is only ever replaced wholesale.

use vstd::prelude::*;
use crate::instancing::Instance;
use crate::model::{Mesh, Vertex};
use crate::renderer::RenderBatch;

verus! {

/// One compiled avatar module.
pub struct AvatarModule {
    pub module_name: String,
    pub visible: bool,
    pub mesh: Mesh,
    pub instances: Vec<Instance>,
    pub render_pipeline: u64,
    pub vertex_buffer: u64,
    pub index_buffer: u64,
    pub instance_buffer: u64,
    pub index_count: u32,
    pub instance_count: u32,
}

impl AvatarModule {
    /// The counts match what the module actually holds.
    pub open spec fn well_formed(self) -> bool {
        &&& self.mesh.well_formed()
        &&& self.index_count == self.mesh.indices@.len()
        &&& self.instance_count == self.instances@.len()
    }

    /// The mesh vertices this module draws.
    pub fn get_vertices(&self) -> (r: &Vec<Vertex>)
        ensures
            r@ == self.mesh.vertices@,
    {
        &self.mesh.vertices
    }

    /// The mesh indices this module draws.
    pub fn get_indices(&self) -> (r: &Vec<u16>)
        ensures
            r@ == self.mesh.indices@,
    {
        &self.mesh.indices
    }
}

impl RenderBatch for AvatarModule {
    open spec fn batch_visible(&self) -> bool {
        self.visible
    }

    open spec fn batch_pipeline(&self) -> Option<u64> {
        Some(self.render_pipeline)
    }

    open spec fn batch_vertex_buffer(&self) -> u64 {
        self.vertex_buffer
    }

    open spec fn batch_index_buffer(&self) -> u64 {
        self.index_buffer
    }

    open spec fn batch_instance_buffer(&self) -> Option<u64> {
        Some(self.instance_buffer)
    }

    open spec fn batch_index_count(&self) -> u32 {
        self.index_count
    }

    open spec fn batch_instance_count(&self) -> Option<u32> {
        Some(self.instance_count)
    }

    fn get_visible(&self) -> bool {
        self.visible
    }

    fn get_pipeline(&self) -> Option<u64> {
        Some(self.render_pipeline)
    }

    fn get_vertex_buffer(&self) -> u64 {
        self.vertex_buffer
    }

    fn get_index_buffer(&self) -> u64 {
        self.index_buffer
    }

    fn get_instance_buffer(&self) -> Option<u64> {
        Some(self.instance_buffer)
    }

    fn get_indices_count(&self) -> u32 {
        self.index_count
    }

    fn get_instance_count(&self) -> Option<u32> {
        Some(self.instance_count)
    }
}

/// The full avatar: the ordered modules compiled from one description.
pub struct Avatar {
    pub avatar_modules: Vec<AvatarModule>,
}

impl Avatar {
    /// An avatar with no modules, the state before the first build.
    pub fn new_empty() -> (r: Avatar)
        ensures
            r.avatar_modules@.len() == 0,
    {
        Avatar { avatar_modules: Vec::new() }
    }
}

} // verus!
