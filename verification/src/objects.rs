//! Handles and per-object bookkeeping for the seven GL object kinds.
//!
//! A handle is an opaque identity plus a value-comparable token naming the
//! context that created it; the object's mutable state lives in the owning
//! context's registries. Identifiers are positive and index the registry at
//! `id - 1`; the GL name zero is never handed out.

use vstd::prelude::*;

verus! {

/// A buffer object handle.
#[derive(Clone, Copy, Debug, PartialEq, Eq, Structural)]
pub struct WebGLBuffer {
    pub ctx_id: u64,
    pub id: u32,
}

/// A texture object handle.
#[derive(Clone, Copy, Debug, PartialEq, Eq, Structural)]
pub struct WebGLTexture {
    pub ctx_id: u64,
    pub id: u32,
}

/// A renderbuffer object handle.
#[derive(Clone, Copy, Debug, PartialEq, Eq, Structural)]
pub struct WebGLRenderbuffer {
    pub ctx_id: u64,
    pub id: u32,
}

/// A framebuffer object handle.
#[derive(Clone, Copy, Debug, PartialEq, Eq, Structural)]
pub struct WebGLFramebuffer {
    pub ctx_id: u64,
    pub id: u32,
}

/// A program object handle.
#[derive(Clone, Copy, Debug, PartialEq, Eq, Structural)]
pub struct WebGLProgram {
    pub ctx_id: u64,
    pub id: u32,
}

/// A shader object handle.
#[derive(Clone, Copy, Debug, PartialEq, Eq, Structural)]
pub struct WebGLShader {
    pub ctx_id: u64,
    pub id: u32,
}

/// A vertex array object handle.
#[derive(Clone, Copy, Debug, PartialEq, Eq, Structural)]
pub struct WebGLVertexArrayObjectOES {
    pub ctx_id: u64,
    pub id: u32,
}

/// A uniform location: program identity, location identifier, the uniform's
/// declared type, its array length for array uniforms, and the link
/// generation at capture time. The location is valid only while its
/// generation equals the program's current link generation.
#[derive(Clone, Copy, Debug, PartialEq, Eq, Structural)]
pub struct WebGLUniformLocation {
    pub ctx_id: u64,
    pub program_id: u32,
    pub id: i32,
    pub link_generation: u64,
    pub type_: u32,
    pub size: i32,
    pub is_array: bool,
}

/// Bookkeeping for one buffer object.
#[derive(Clone, Debug, PartialEq)]
pub struct BufferState {
    /// The target the buffer was first bound to; binds to the other target
    /// are rejected afterwards.
    pub target: Option<u32>,
    /// Byte capacity established by the last data upload.
    pub capacity: usize,
    /// Usage hint of the last data upload.
    pub usage: u32,
    /// Deletion requested; the object stays alive while attached anywhere.
    pub marked_for_deletion: bool,
    /// How many binding slots and attribute bindings reference the buffer.
    pub attached: u32,
    /// The backend was told to release the object.
    pub released: bool,
}

/// Dimensions and format of one uploaded texture image level.
#[derive(Clone, Copy, Debug, PartialEq, Eq, Structural)]
pub struct TexImageInfo {
    pub face_target: u32,
    pub level: u32,
    pub width: u32,
    pub height: u32,
    pub internal_format: u32,
    /// `None` for images whose data came from the framebuffer.
    pub data_type: Option<u32>,
}

/// Bookkeeping for one texture object.
#[derive(Clone, Debug, PartialEq)]
pub struct TextureState {
    /// The target the texture was first bound to; binds to the other target
    /// are rejected afterwards.
    pub target: Option<u32>,
    pub deleted: bool,
    pub min_filter: u32,
    pub mag_filter: u32,
    /// The image levels that have been uploaded, keyed by face and level.
    pub images: Vec<TexImageInfo>,
}

/// Bookkeeping for one renderbuffer object.
#[derive(Clone, Copy, Debug, PartialEq, Eq, Structural)]
pub struct RenderbufferState {
    pub ever_bound: bool,
    pub deleted: bool,
    pub internal_format: Option<u32>,
    pub width: u32,
    pub height: u32,
}

/// One framebuffer attachment point's content.
#[derive(Clone, Copy, Debug, PartialEq, Eq, Structural)]
pub enum WebGLAttachment {
    Renderbuffer(u32),
    Texture { id: u32, face: u32, level: i32 },
}

/// Bookkeeping for one framebuffer object.
#[derive(Clone, Copy, Debug, PartialEq, Eq, Structural)]
pub struct FramebufferState {
    pub target: Option<u32>,
    pub deleted: bool,
    pub color: Option<WebGLAttachment>,
    pub depth: Option<WebGLAttachment>,
    pub stencil: Option<WebGLAttachment>,
    pub depthstencil: Option<WebGLAttachment>,
}

/// One active vertex attribute reported by the linker.
#[derive(Clone, Debug, PartialEq)]
pub struct ActiveAttribInfo {
    pub name: String,
    pub size: i32,
    pub type_: u32,
    pub location: i32,
}

/// One active uniform reported by the linker. `size` is `None` for
/// non-array uniforms.
#[derive(Clone, Debug, PartialEq)]
pub struct ActiveUniformInfo {
    pub name: String,
    pub size: Option<i32>,
    pub type_: u32,
}

/// The linker's report for one link attempt, supplied by the shader
/// compiler and linker, which are outside this core.
#[derive(Clone, Debug, PartialEq)]
pub struct LinkOutcome {
    pub linked: bool,
    pub active_attribs: Vec<ActiveAttribInfo>,
    pub active_uniforms: Vec<ActiveUniformInfo>,
}

/// Bookkeeping for one program object.
#[derive(Clone, Debug, PartialEq)]
pub struct ProgramState {
    pub marked_for_deletion: bool,
    pub in_use: bool,
    pub linked: bool,
    /// Incremented on every relink; invalidates captured uniform locations.
    pub link_generation: u64,
    pub vertex_shader: Option<u32>,
    pub fragment_shader: Option<u32>,
    pub active_attribs: Vec<ActiveAttribInfo>,
    pub active_uniforms: Vec<ActiveUniformInfo>,
}

/// Bookkeeping for one shader object.
#[derive(Clone, Debug, PartialEq)]
pub struct ShaderState {
    pub shader_type: u32,
    pub marked_for_deletion: bool,
    pub source: String,
    pub compiled: bool,
    /// Verdict of the shader compiler, which is outside this core.
    pub compile_ok: bool,
}

/// Binding state of one vertex attribute slot in a vertex array object.
#[derive(Clone, Copy, Debug, PartialEq, Eq, Structural)]
pub struct VertexAttribData {
    pub enabled_as_array: bool,
    pub size: u32,
    pub type_: u32,
    pub normalized: bool,
    pub stride: u32,
    pub offset: u32,
    pub buffer: Option<u32>,
    pub divisor: u32,
}

/// Bookkeeping for one vertex array object.
#[derive(Clone, Debug, PartialEq)]
pub struct VertexArrayState {
    pub deleted: bool,
    pub ever_bound: bool,
    pub element_array_buffer: Option<u32>,
    pub attribs: Vec<VertexAttribData>,
}

impl VertexAttribData {
    /// The state of an attribute slot in a fresh vertex array object.
    pub fn initial() -> (r: VertexAttribData)
        ensures
            r == VertexAttribData::spec_initial(),
    {
        VertexAttribData {
            enabled_as_array: false,
            size: 4,
            type_: crate::constants::FLOAT,
            normalized: false,
            stride: 0,
            offset: 0,
            buffer: None,
            divisor: 0,
        }
    }

    /// The value `initial` returns.
    pub open spec fn spec_initial() -> VertexAttribData {
        VertexAttribData {
            enabled_as_array: false,
            size: 4,
            type_: crate::constants::FLOAT,
            normalized: false,
            stride: 0,
            offset: 0,
            buffer: None,
            divisor: 0,
        }
    }
}

// ---------------------------------------------------------------------------
// Texture image level lookup.

/// Whether an image record is the one for the given face and level.
pub open spec fn img_matches(t: TexImageInfo, face: u32, level: u32) -> bool {
    t.face_target == face && t.level == level
}

/// No two image records share a face and level.
pub open spec fn images_unique(images: Seq<TexImageInfo>) -> bool {
    forall|i: int, j: int|
        0 <= i < j < images.len() ==> !(#[trigger] images[i].face_target
            == #[trigger] images[j].face_target && images[i].level == images[j].level)
}

/// An image record exists for the given face and level.
pub open spec fn spec_has_image(images: Seq<TexImageInfo>, face: u32, level: u32) -> bool {
    exists|i: int| 0 <= i < images.len() && img_matches(#[trigger] images[i], face, level)
}

/// The image record for the given face and level, where one exists.
pub open spec fn spec_image_at(images: Seq<TexImageInfo>, face: u32, level: u32) -> TexImageInfo {
    images[choose|i: int| 0 <= i < images.len() && img_matches(#[trigger] images[i], face, level)]
}

/// The position of the image record for the given face and level, if any.
pub fn image_index(images: &Vec<TexImageInfo>, face: u32, level: u32) -> (r: Option<usize>)
    ensures
        match r {
            Some(i) => i < images@.len() && img_matches(images@[i as int], face, level),
            None => !spec_has_image(images@, face, level),
        },
{
    let n = images.len();
    let mut i: usize = 0;
    while i < n
        invariant
            i <= n,
            n == images@.len(),
            forall|j: int| 0 <= j < i ==> !img_matches(#[trigger] images@[j], face, level),
        decreases n - i,
    {
        let t = images[i];
        if t.face_target == face && t.level == level {
            return Some(i);
        }
        i = i + 1;
    }
    None
}

/// The image record for the given face and level, if any. With unique
/// records the result is exactly the one `spec_image_at` names.
pub fn find_image(images: &Vec<TexImageInfo>, face: u32, level: u32) -> (r: Option<TexImageInfo>)
    requires
        images_unique(images@),
    ensures
        r == (if spec_has_image(images@, face, level) {
            Some(spec_image_at(images@, face, level))
        } else {
            None::<TexImageInfo>
        }),
{
    match image_index(images, face, level) {
        Some(i) => Some(images[i]),
        None => None,
    }
}

/// Stores an image record, replacing the record with the same face and
/// level if one exists.
pub fn set_image(images: &mut Vec<TexImageInfo>, info: TexImageInfo)
    requires
        images_unique(old(images)@),
    ensures
        images_unique(final(images)@),
        spec_has_image(final(images)@, info.face_target, info.level),
        spec_image_at(final(images)@, info.face_target, info.level) == info,
        // records for every other face and level are untouched
        forall|f: u32, l: u32|
            !(f == info.face_target && l == info.level) ==> (spec_has_image(
                final(images)@,
                f,
                l,
            ) == spec_has_image(old(images)@, f, l) && (spec_has_image(old(images)@, f, l)
                ==> spec_image_at(final(images)@, f, l) == spec_image_at(old(images)@, f, l))),
{
    let ghost pre = images@;
    match image_index(images, info.face_target, info.level) {
        Some(i) => {
            images.set(i, info);
            proof {
                let v = images@;
                assert forall|a: int, b: int| 0 <= a < b < v.len() implies !(#[trigger] v[a].face_target == #[trigger] v[b].face_target && v[a].level == v[b].level) by {
                    assert(pre[a].face_target == v[a].face_target || a == i);
                    assert(pre[b].face_target == v[b].face_target || b == i);
                    assert(!(pre[a].face_target == pre[b].face_target && pre[a].level
                        == pre[b].level));
                }
                assert(img_matches(v[i as int], info.face_target, info.level));
                lemma_unique_image_at(v, info.face_target, info.level, i as int);
                assert forall|f: u32, l: u32| !(f == info.face_target && l == info.level) implies (
                spec_has_image(v, f, l) == spec_has_image(pre, f, l) && (spec_has_image(pre, f, l)
                    ==> spec_image_at(v, f, l) == spec_image_at(pre, f, l))) by {
                    if spec_has_image(pre, f, l) {
                        let k = choose|k: int| 0 <= k < pre.len() && img_matches(
                            #[trigger] pre[k],
                            f,
                            l,
                        );
                        assert(k != i);
                        assert(img_matches(v[k], f, l));
                        lemma_unique_image_at(v, f, l, k);
                        lemma_unique_image_at(pre, f, l, k);
                    }
                    if spec_has_image(v, f, l) {
                        let k = choose|k: int| 0 <= k < v.len() && img_matches(
                            #[trigger] v[k],
                            f,
                            l,
                        );
                        assert(k != i);
                        assert(img_matches(pre[k], f, l));
                    }
                }
            }
        },
        None => {
            images.push(info);
            proof {
                let v = images@;
                let n = pre.len() as int;
                assert forall|a: int, b: int| 0 <= a < b < v.len() implies !(#[trigger] v[a].face_target == #[trigger] v[b].face_target && v[a].level == v[b].level) by {
                    if b == n {
                        assert(v[a] == pre[a]);
                        assert(!img_matches(pre[a], info.face_target, info.level));
                    } else {
                        assert(v[a] == pre[a] && v[b] == pre[b]);
                    }
                }
                assert(img_matches(v[n], info.face_target, info.level));
                lemma_unique_image_at(v, info.face_target, info.level, n);
                assert forall|f: u32, l: u32| !(f == info.face_target && l == info.level) implies (
                spec_has_image(v, f, l) == spec_has_image(pre, f, l) && (spec_has_image(pre, f, l)
                    ==> spec_image_at(v, f, l) == spec_image_at(pre, f, l))) by {
                    if spec_has_image(pre, f, l) {
                        let k = choose|k: int| 0 <= k < pre.len() && img_matches(
                            #[trigger] pre[k],
                            f,
                            l,
                        );
                        assert(img_matches(v[k], f, l));
                        lemma_unique_image_at(v, f, l, k);
                        lemma_unique_image_at(pre, f, l, k);
                    }
                    if spec_has_image(v, f, l) {
                        let k = choose|k: int| 0 <= k < v.len() && img_matches(
                            #[trigger] v[k],
                            f,
                            l,
                        );
                        assert(k != n);
                        assert(img_matches(pre[k], f, l));
                    }
                }
            }
        },
    }
}

/// With unique records, `spec_image_at` names exactly the record at any
/// matching position.
pub proof fn lemma_unique_image_at(images: Seq<TexImageInfo>, face: u32, level: u32, i: int)
    requires
        images_unique(images),
        0 <= i < images.len(),
        img_matches(images[i], face, level),
    ensures
        spec_has_image(images, face, level),
        spec_image_at(images, face, level) == images[i],
{
    assert(spec_has_image(images, face, level));
    let k = choose|k: int| 0 <= k < images.len() && img_matches(#[trigger] images[k], face, level);
    if k != i {
        assert(!(images[if k < i {
            k
        } else {
            i
        }].face_target == images[if k < i {
            i
        } else {
            k
        }].face_target && images[if k < i {
            k
        } else {
            i
        }].level == images[if k < i {
            i
        } else {
            k
        }].level));
    }
}

} // verus!
