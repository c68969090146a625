//! Backend-reported implementation limits, fixed at context creation.

use vstd::prelude::*;

verus! {

/// The limits the backend reports when a context is created. They bound
/// texture unit counts, attribute counts and object sizes for the whole
/// lifetime of the context.
#[derive(Clone, Copy, Debug, PartialEq, Eq, Structural)]
pub struct GLLimits {
    pub max_vertex_attribs: u32,
    pub max_tex_size: u32,
    pub max_cube_map_tex_size: u32,
    pub max_combined_texture_image_units: u32,
    pub max_fragment_uniform_vectors: u32,
    pub max_renderbuffer_size: u32,
    pub max_texture_image_units: u32,
    pub max_varying_vectors: u32,
    pub max_vertex_texture_image_units: u32,
    pub max_vertex_uniform_vectors: u32,
}

impl GLLimits {
    /// Sanity bounds every conforming backend satisfies; they keep all size
    /// computations of the upload and draw validators inside `u64`.
    pub open spec fn wf(self) -> bool {
        &&& 1 <= self.max_combined_texture_image_units <= 0x10000
        &&& 1 <= self.max_vertex_attribs <= 0x10000
        &&& 1 <= self.max_tex_size <= 0x10000
        &&& 1 <= self.max_cube_map_tex_size <= 0x10000
        &&& 1 <= self.max_renderbuffer_size <= 0x10000
    }

    /// The minimum limit set the WebGL 1.0 specification guarantees.
    pub fn minimal() -> (r: GLLimits)
        ensures
            r.wf(),
            r.max_combined_texture_image_units == 8,
            r.max_vertex_attribs == 8,
            r.max_tex_size == 64,
    {
        GLLimits {
            max_vertex_attribs: 8,
            max_tex_size: 64,
            max_cube_map_tex_size: 16,
            max_combined_texture_image_units: 8,
            max_fragment_uniform_vectors: 16,
            max_renderbuffer_size: 1,
            max_texture_image_units: 8,
            max_varying_vectors: 8,
            max_vertex_texture_image_units: 0,
            max_vertex_uniform_vectors: 128,
        }
    }
}

} // verus!
