//! The context: bindings, cached state, object registries, the sticky
//! error register and the command outbox.
//!
//! Every entry point validates first; a failed validation records exactly
//! one error code and changes nothing else. A successful call updates the
//! tracked state and appends the encoded commands to the outbox, which the
//! host environment drains onto its channel to the rendering backend.

use vstd::prelude::*;

use crate::command::{FramebufferBinding, WebGLCommand};
use crate::constants;
use crate::error::{record, spec_register_code, WebGLError};
use crate::extensions::WebGLExtensions;
use crate::limits::GLLimits;
use crate::objects::{
    BufferState, FramebufferState, ProgramState, RenderbufferState, ShaderState, TexImageInfo,
    TextureState, VertexArrayState, VertexAttribData, WebGLAttachment,
};
use crate::textures::Textures;

verus! {

/// All mutable tracked state of a context apart from the error register,
/// the loss latch and the outbox.
#[derive(Debug)]
pub struct ContextState {
    /// Drawing buffer size last requested from the backend.
    pub size: (u32, u32),
    pub pack_alignment: u32,
    pub unpack_alignment: u32,
    pub unpack_flip_y: bool,
    pub unpack_premultiply_alpha: bool,
    pub unpack_colorspace_conversion: bool,
    pub bound_framebuffer: Option<u32>,
    pub bound_renderbuffer: Option<u32>,
    pub bound_array_buffer: Option<u32>,
    pub current_program: Option<u32>,
    /// Index into `vaos`; slot 0 is the default vertex array object.
    pub current_vao: u32,
    /// Cached zero-index vertex attribute, as IEEE-754 bit patterns.
    pub current_vertex_attrib_0: (u32, u32, u32, u32),
    pub current_scissor: (i32, i32, u32, u32),
    /// Cached clear color, as IEEE-754 bit patterns.
    pub current_clear_color: (u32, u32, u32, u32),
    /// Capability bitset, one bit per togglable capability.
    pub capabilities: u16,
    pub extensions: WebGLExtensions,
    pub tex_units: Textures,
    pub buffers: Vec<BufferState>,
    pub textures: Vec<TextureState>,
    pub renderbuffers: Vec<RenderbufferState>,
    pub framebuffers: Vec<FramebufferState>,
    pub programs: Vec<ProgramState>,
    pub shaders: Vec<ShaderState>,
    pub vaos: Vec<VertexArrayState>,
}

/// The validation and dispatch core for one drawing surface.
#[derive(Debug)]
pub struct WebGLRenderingContext {
    /// Value-comparable identity token; object handles carry it and are
    /// usable only through the context with the equal token.
    pub ctx_id: u64,
    /// Backend-reported limits, fixed at creation.
    pub limits: GLLimits,
    /// Latched when the backend channel is lost; every later operation
    /// reports `ContextLost`.
    pub lost: bool,
    /// Single-slot sticky error register, first write wins.
    pub last_error: Option<WebGLError>,
    /// Commands encoded and not yet drained by the host environment.
    pub outbox: Vec<WebGLCommand>,
    pub state: ContextState,
}

// ---------------------------------------------------------------------------
// Capability bitset.

/// The bit a togglable capability occupies in the bitset, or `None` for an
/// enum outside the legal set.
pub open spec fn spec_cap_mask(cap: u32) -> Option<u16> {
    if cap == constants::BLEND {
        Some(0x001u16)
    } else if cap == constants::CULL_FACE {
        Some(0x002u16)
    } else if cap == constants::DEPTH_TEST {
        Some(0x004u16)
    } else if cap == constants::DITHER {
        Some(0x008u16)
    } else if cap == constants::POLYGON_OFFSET_FILL {
        Some(0x010u16)
    } else if cap == constants::SAMPLE_ALPHA_TO_COVERAGE {
        Some(0x020u16)
    } else if cap == constants::SAMPLE_COVERAGE {
        Some(0x040u16)
    } else if cap == constants::SCISSOR_TEST {
        Some(0x080u16)
    } else if cap == constants::STENCIL_TEST {
        Some(0x100u16)
    } else {
        None
    }
}

/// The bit a togglable capability occupies in the bitset.
pub fn cap_mask(cap: u32) -> (r: Option<u16>)
    ensures
        r == spec_cap_mask(cap),
{
    match cap {
        constants::BLEND => Some(0x001),
        constants::CULL_FACE => Some(0x002),
        constants::DEPTH_TEST => Some(0x004),
        constants::DITHER => Some(0x008),
        constants::POLYGON_OFFSET_FILL => Some(0x010),
        constants::SAMPLE_ALPHA_TO_COVERAGE => Some(0x020),
        constants::SAMPLE_COVERAGE => Some(0x040),
        constants::SCISSOR_TEST => Some(0x080),
        constants::STENCIL_TEST => Some(0x100),
        _ => None,
    }
}

/// The capability bitset of a fresh context: only DITHER enabled.
pub const DEFAULT_CAPABILITIES: u16 = 0x008;

// ---------------------------------------------------------------------------
// Frame predicates: how a call may relate the context after to the context
// before.

/// The configuration fixed at creation is never touched.
pub open spec fn same_config(pre: WebGLRenderingContext, post: WebGLRenderingContext) -> bool {
    &&& post.ctx_id == pre.ctx_id
    &&& post.limits == pre.limits
}

/// The call failed validation: the register records `e` (first write wins)
/// and nothing else changes — no state, no command.
pub open spec fn rejected(
    pre: WebGLRenderingContext,
    post: WebGLRenderingContext,
    e: WebGLError,
) -> bool {
    &&& same_config(pre, post)
    &&& post.lost == pre.lost
    &&& post.last_error == record(pre.last_error, e)
    &&& post.outbox@ == pre.outbox@
    &&& post.state == pre.state
}

/// The call was a defined no-op: nothing at all changes.
pub open spec fn unchanged(pre: WebGLRenderingContext, post: WebGLRenderingContext) -> bool {
    &&& same_config(pre, post)
    &&& post.lost == pre.lost
    &&& post.last_error == pre.last_error
    &&& post.outbox@ == pre.outbox@
    &&& post.state == pre.state
}

/// The call succeeded: the tracked state becomes `s2`, the commands `cmds`
/// are appended, and the error register is untouched.
pub open spec fn applied(
    pre: WebGLRenderingContext,
    post: WebGLRenderingContext,
    s2: ContextState,
    cmds: Seq<WebGLCommand>,
) -> bool {
    &&& same_config(pre, post)
    &&& post.lost == pre.lost
    &&& post.last_error == pre.last_error
    &&& post.outbox@ == pre.outbox@ + cmds
    &&& post.state == s2
}

/// The call succeeded without touching the tracked state: only commands
/// were appended.
pub open spec fn sent(
    pre: WebGLRenderingContext,
    post: WebGLRenderingContext,
    cmds: Seq<WebGLCommand>,
) -> bool {
    applied(pre, post, pre.state, cmds)
}

/// The call succeeded and appended exactly one command.
pub open spec fn sent1(
    pre: WebGLRenderingContext,
    post: WebGLRenderingContext,
    cmd: WebGLCommand,
) -> bool {
    sent(pre, post, seq![cmd])
}

// ---------------------------------------------------------------------------
// Well-formedness.

/// An optional object identifier addresses an existing registry entry.
pub open spec fn opt_id_in(x: Option<u32>, len: nat) -> bool {
    match x {
        Some(id) => 0 < id <= len,
        None => true,
    }
}

/// A framebuffer attachment references existing objects.
pub open spec fn attachment_wf(a: Option<WebGLAttachment>, s: ContextState) -> bool {
    match a {
        Some(WebGLAttachment::Renderbuffer(id)) => 0 < id <= s.renderbuffers@.len(),
        Some(WebGLAttachment::Texture { id, .. }) => 0 < id <= s.textures@.len(),
        None => true,
    }
}

/// A framebuffer's bookkeeping references existing objects.
pub open spec fn framebuffer_wf(f: FramebufferState, s: ContextState) -> bool {
    &&& attachment_wf(f.color, s)
    &&& attachment_wf(f.depth, s)
    &&& attachment_wf(f.stencil, s)
    &&& attachment_wf(f.depthstencil, s)
}

/// A vertex array object's bookkeeping is sized to the attribute limit and
/// references existing buffers.
pub open spec fn vao_wf(v: VertexArrayState, s: ContextState, limits: GLLimits) -> bool {
    &&& v.attribs@.len() == limits.max_vertex_attribs
    &&& opt_id_in(v.element_array_buffer, s.buffers@.len())
    &&& forall|i: int| 0 <= i < v.attribs@.len() ==> opt_id_in(
        #[trigger] v.attribs@[i].buffer,
        s.buffers@.len(),
    )
}

/// A linked program's reflection data addresses legal attribute slots
/// and its uniform table fits in the location identifier space.
pub open spec fn program_wf(p: ProgramState, limits: GLLimits) -> bool {
    p.linked ==> p.active_uniforms@.len() <= 0x7FFF_FFFF && (forall|i: int|
        0 <= i < p.active_attribs@.len() ==> 0 <= #[trigger] p.active_attribs@[i].location
            < limits.max_vertex_attribs)
}

impl WebGLRenderingContext {
    /// The master invariant: every stored identifier addresses an existing
    /// registry entry and every fixed-size table has its creation-time
    /// size. Constructors establish it and every entry point preserves it.
    pub open spec fn valid(self) -> bool {
        let s = self.state;
        &&& self.limits.wf()
        &&& (s.unpack_alignment == 1 || s.unpack_alignment == 2 || s.unpack_alignment == 4
            || s.unpack_alignment == 8)
        &&& (s.pack_alignment == 1 || s.pack_alignment == 2 || s.pack_alignment == 4
            || s.pack_alignment == 8)
        &&& s.tex_units.wf(self.limits.max_combined_texture_image_units)
        &&& forall|i: int| 0 <= i < s.tex_units.units@.len() ==> opt_id_in(
            #[trigger] s.tex_units.units@[i].tex_2d,
            s.textures@.len(),
        ) && opt_id_in(s.tex_units.units@[i].tex_cube_map, s.textures@.len())
        &&& opt_id_in(s.bound_framebuffer, s.framebuffers@.len())
        &&& opt_id_in(s.bound_renderbuffer, s.renderbuffers@.len())
        &&& opt_id_in(s.bound_array_buffer, s.buffers@.len())
        &&& opt_id_in(s.current_program, s.programs@.len())
        &&& 1 <= s.vaos@.len()
        &&& (s.current_vao as int) < s.vaos@.len()
        &&& forall|i: int| 0 <= i < s.vaos@.len() ==> vao_wf(
            #[trigger] s.vaos@[i],
            s,
            self.limits,
        )
        &&& forall|i: int| 0 <= i < s.framebuffers@.len() ==> framebuffer_wf(
            #[trigger] s.framebuffers@[i],
            s,
        )
        &&& forall|i: int| 0 <= i < s.programs@.len() ==> program_wf(
            #[trigger] s.programs@[i],
            self.limits,
        )
        &&& forall|i: int| 0 <= i < s.textures@.len() ==> crate::objects::images_unique(
            #[trigger] s.textures@[i].images@,
        )
    }

    /// What a context fresh from `new_inherited` looks like: no error, no
    /// pending command, no objects, default settings.
    pub open spec fn is_fresh(self, ctx_id: u64, size: (u32, u32), limits: GLLimits) -> bool {
        &&& self.valid()
        &&& self.ctx_id == ctx_id
        &&& self.limits == limits
        &&& !self.lost
        &&& self.last_error is None
        &&& self.outbox@ == Seq::<WebGLCommand>::empty()
        &&& self.state.size == size
        &&& self.state.pack_alignment == 4
        &&& self.state.unpack_alignment == 4
        &&& !self.state.unpack_flip_y
        &&& !self.state.unpack_premultiply_alpha
        &&& self.state.unpack_colorspace_conversion
        &&& self.state.bound_framebuffer is None
        &&& self.state.bound_renderbuffer is None
        &&& self.state.bound_array_buffer is None
        &&& self.state.current_program is None
        &&& self.state.current_vao == 0
        &&& self.state.current_scissor == (0i32, 0i32, size.0, size.1)
        &&& self.state.current_clear_color == (0u32, 0u32, 0u32, 0u32)
        &&& self.state.capabilities == DEFAULT_CAPABILITIES
        &&& self.state.extensions == WebGLExtensions::spec_new()
        &&& self.state.tex_units.active_unit == 0
        &&& self.state.buffers@.len() == 0
        &&& self.state.textures@.len() == 0
        &&& self.state.renderbuffers@.len() == 0
        &&& self.state.framebuffers@.len() == 0
        &&& self.state.programs@.len() == 0
        &&& self.state.shaders@.len() == 0
        &&& self.state.vaos@.len() == 1
    }

    /// Builds the tracked state for a fresh context over a surface of the
    /// given size, with the limits the backend reported at creation.
    pub fn new_inherited(ctx_id: u64, size: (u32, u32), limits: GLLimits) -> (r:
        WebGLRenderingContext)
        requires
            limits.wf(),
        ensures
            r.is_fresh(ctx_id, size, limits),
    {
        let default_vao = VertexArrayState {
            deleted: false,
            ever_bound: true,
            element_array_buffer: None,
            attribs: initial_attribs(limits.max_vertex_attribs),
        };
        let mut vaos: Vec<VertexArrayState> = Vec::new();
        vaos.push(default_vao);
        WebGLRenderingContext {
            ctx_id,
            limits,
            lost: false,
            last_error: None,
            outbox: Vec::new(),
            state: ContextState {
                size,
                pack_alignment: 4,
                unpack_alignment: 4,
                unpack_flip_y: false,
                unpack_premultiply_alpha: false,
                unpack_colorspace_conversion: true,
                bound_framebuffer: None,
                bound_renderbuffer: None,
                bound_array_buffer: None,
                current_program: None,
                current_vao: 0,
                current_vertex_attrib_0: (
                    crate::floatbits::ZERO_BITS,
                    crate::floatbits::ZERO_BITS,
                    crate::floatbits::ZERO_BITS,
                    crate::floatbits::ONE_BITS,
                ),
                current_scissor: (0, 0, size.0, size.1),
                current_clear_color: (0, 0, 0, 0),
                capabilities: DEFAULT_CAPABILITIES,
                extensions: WebGLExtensions::new(),
                tex_units: Textures::new(limits.max_combined_texture_image_units),
                buffers: Vec::new(),
                textures: Vec::new(),
                renderbuffers: Vec::new(),
                framebuffers: Vec::new(),
                programs: Vec::new(),
                shaders: Vec::new(),
                vaos,
            },
        }
    }

    /// Creates a context. Creation only fails when the host could not reach
    /// the backend; the host then reports the creation error itself.
    pub fn new(ctx_id: u64, size: (u32, u32), limits: GLLimits) -> (r: Option<
        WebGLRenderingContext,
    >)
        requires
            limits.wf(),
        ensures
            r matches Some(c) && c.is_fresh(ctx_id, size, limits),
    {
        Some(WebGLRenderingContext::new_inherited(ctx_id, size, limits))
    }

    /// The drawing buffer size last requested.
    pub fn size(&self) -> (r: (u32, u32))
        ensures
            r == self.state.size,
    {
        self.state.size
    }

    /// The backend-reported limits.
    pub fn limits(&self) -> (r: &GLLimits)
        ensures
            r == self.limits,
    {
        &self.limits
    }

    /// Records an error in the sticky register: first write wins, later
    /// writes are dropped until the register is polled.
    pub fn webgl_error(&mut self, err: WebGLError)
        ensures
            rejected(*old(self), *final(self), err),
    {
        if self.last_error.is_none() {
            self.last_error = Some(err);
        }
    }

    /// Encodes one validated operation: appends it to the outbox.
    pub fn send_command(&mut self, command: WebGLCommand)
        ensures
            sent1(*old(self), *final(self), command),
    {
        let ghost pre = self.outbox@;
        self.outbox.push(command);
        proof {
            assert(self.outbox@ =~= pre + seq![command]);
        }
    }

    /// Latches context loss: the host calls this when its channel to the
    /// backend fails. Every later operation reports `ContextLost`.
    pub fn mark_context_lost(&mut self)
        ensures
            final(self).lost,
            same_config(*old(self), *final(self)),
            final(self).last_error == old(self).last_error,
            final(self).outbox@ == old(self).outbox@,
            final(self).state == old(self).state,
    {
        self.lost = true;
    }

    /// Polls the error register: returns the code of the first error
    /// recorded since the previous poll, or `NO_ERROR`, and clears the
    /// register.
    pub fn GetError(&mut self) -> (code: u32)
        ensures
            code == spec_register_code(old(self).last_error),
            final(self).last_error is None,
            same_config(*old(self), *final(self)),
            final(self).lost == old(self).lost,
            final(self).outbox@ == old(self).outbox@,
            final(self).state == old(self).state,
    {
        let code: u32 = match self.last_error {
            Some(e) => e.as_gl_constant(),
            None => constants::NO_ERROR,
        };
        self.last_error = None;
        code
    }

    /// Whether the call must be refused because the context is lost; if so
    /// the register records `ContextLost`.
    pub fn check_lost(&mut self) -> (r: bool)
        ensures
            r == old(self).lost,
            if old(self).lost {
                rejected(*old(self), *final(self), WebGLError::ContextLost)
            } else {
                unchanged(*old(self), *final(self))
            },
            !old(self).lost ==> *final(self) == *old(self),
    {
        if self.lost {
            self.webgl_error(WebGLError::ContextLost);
            true
        } else {
            false
        }
    }
}

// ---------------------------------------------------------------------------
// Enum domains.

/// The two blend factors select the constant color and the constant alpha,
/// which the specification forbids to mix.
pub open spec fn spec_invalid_blend_pair(a: u32, b: u32) -> bool {
    (a == constants::CONSTANT_COLOR || a == constants::ONE_MINUS_CONSTANT_COLOR) && (b
        == constants::CONSTANT_ALPHA || b == constants::ONE_MINUS_CONSTANT_ALPHA)
}

/// Mixing constant-color and constant-alpha factors in either order is a
/// blend mutual-exclusion violation.
pub open spec fn spec_blend_conflict(a: u32, b: u32) -> bool {
    spec_invalid_blend_pair(a, b) || spec_invalid_blend_pair(b, a)
}

/// One of the two factors selects a constant-color variant while the other
/// selects a constant-alpha variant.
pub(crate) fn has_invalid_blend_constants(arg1: u32, arg2: u32) -> (r: bool)
    ensures
        r == spec_invalid_blend_pair(arg1, arg2),
{
    match (arg1, arg2) {
        (constants::CONSTANT_COLOR, constants::CONSTANT_ALPHA) => true,
        (constants::ONE_MINUS_CONSTANT_COLOR, constants::ONE_MINUS_CONSTANT_ALPHA) => true,
        (constants::ONE_MINUS_CONSTANT_COLOR, constants::CONSTANT_ALPHA) => true,
        (constants::CONSTANT_COLOR, constants::ONE_MINUS_CONSTANT_ALPHA) => true,
        (_, _) => false,
    }
}

/// The legal blend equations; MIN and MAX only under the blend-minmax
/// capability set.
pub open spec fn spec_valid_blend_mode(ext: WebGLExtensions, mode: u32) -> bool {
    ||| mode == constants::FUNC_ADD
    ||| mode == constants::FUNC_SUBTRACT
    ||| mode == constants::FUNC_REVERSE_SUBTRACT
    ||| ((mode == constants::MIN_EXT || mode == constants::MAX_EXT) && ext.ext_blend_minmax)
}

/// The closed set of comparison functions.
pub open spec fn spec_is_comparison_func(f: u32) -> bool {
    ||| f == constants::NEVER
    ||| f == constants::LESS
    ||| f == constants::EQUAL
    ||| f == constants::LEQUAL
    ||| f == constants::GREATER
    ||| f == constants::NOTEQUAL
    ||| f == constants::GEQUAL
    ||| f == constants::ALWAYS
}

/// The closed set of stencil actions; zero is accepted as an alias of KEEP.
pub open spec fn spec_is_stencil_action(a: u32) -> bool {
    ||| a == 0
    ||| a == constants::KEEP
    ||| a == constants::REPLACE
    ||| a == constants::INCR
    ||| a == constants::DECR
    ||| a == constants::INVERT
    ||| a == constants::INCR_WRAP
    ||| a == constants::DECR_WRAP
}

/// The closed set of face selectors.
pub open spec fn spec_is_face(f: u32) -> bool {
    f == constants::FRONT || f == constants::BACK || f == constants::FRONT_AND_BACK
}

// ---------------------------------------------------------------------------
// Framebuffer completeness.

/// Dimensions an attachment contributes: a renderbuffer's storage, or the
/// referenced texture image level. `None` while the backing store is
/// uninitialized.
pub open spec fn spec_attachment_size(s: ContextState, a: WebGLAttachment) -> Option<(u32, u32)> {
    match a {
        WebGLAttachment::Renderbuffer(id) => {
            if 0 < id <= s.renderbuffers@.len() {
                let rb = s.renderbuffers@[id - 1];
                if rb.internal_format is Some {
                    Some((rb.width, rb.height))
                } else {
                    None
                }
            } else {
                None
            }
        },
        WebGLAttachment::Texture { id, face, level } => {
            if 0 < id <= s.textures@.len() && 0 <= level {
                let images = s.textures@[id - 1].images@;
                if crate::objects::spec_has_image(images, face, level as u32) {
                    let info = crate::objects::spec_image_at(images, face, level as u32);
                    Some((info.width, info.height))
                } else {
                    None
                }
            } else {
                None
            }
        },
    }
}

/// At least one attachment point is populated.
pub open spec fn spec_fb_has_attachment(f: FramebufferState) -> bool {
    f.color is Some || f.depth is Some || f.stencil is Some || f.depthstencil is Some
}

/// A populated attachment point whose backing store is uninitialized or
/// empty.
pub open spec fn spec_att_bad(s: ContextState, a: Option<WebGLAttachment>) -> bool {
    match a {
        Some(att) => match spec_attachment_size(s, att) {
            Some(sz) => sz.0 == 0 || sz.1 == 0,
            None => true,
        },
        None => false,
    }
}

/// The dimensions of the first populated attachment point.
pub open spec fn spec_fb_first_size(s: ContextState, f: FramebufferState) -> Option<(u32, u32)> {
    if f.color is Some {
        spec_attachment_size(s, f.color->0)
    } else if f.depth is Some {
        spec_attachment_size(s, f.depth->0)
    } else if f.stencil is Some {
        spec_attachment_size(s, f.stencil->0)
    } else if f.depthstencil is Some {
        spec_attachment_size(s, f.depthstencil->0)
    } else {
        None
    }
}

/// A populated attachment point whose dimensions disagree with `sz`.
pub open spec fn spec_att_mismatch(
    s: ContextState,
    a: Option<WebGLAttachment>,
    sz: (u32, u32),
) -> bool {
    match a {
        Some(att) => spec_attachment_size(s, att) != Some(sz),
        None => false,
    }
}

/// The framebuffer's completeness status: no attachment at all, an
/// unusable attachment, disagreeing dimensions, or complete.
pub open spec fn spec_fb_status(s: ContextState, f: FramebufferState) -> u32 {
    if !spec_fb_has_attachment(f) {
        constants::FRAMEBUFFER_INCOMPLETE_MISSING_ATTACHMENT
    } else if spec_att_bad(s, f.color) || spec_att_bad(s, f.depth) || spec_att_bad(s, f.stencil)
        || spec_att_bad(s, f.depthstencil) {
        constants::FRAMEBUFFER_INCOMPLETE_ATTACHMENT
    } else {
        match spec_fb_first_size(s, f) {
            Some(sz) => {
                if spec_att_mismatch(s, f.color, sz) || spec_att_mismatch(s, f.depth, sz)
                    || spec_att_mismatch(s, f.stencil, sz) || spec_att_mismatch(
                    s,
                    f.depthstencil,
                    sz,
                ) {
                    constants::FRAMEBUFFER_INCOMPLETE_DIMENSIONS
                } else {
                    constants::FRAMEBUFFER_COMPLETE
                }
            },
            None => constants::FRAMEBUFFER_INCOMPLETE_ATTACHMENT,
        }
    }
}

/// The completeness verdict for a draw, clear or read through the bound
/// framebuffer: using the default framebuffer is always legal; an
/// incomplete framebuffer object is a framebuffer-operation failure; one
/// that is complete but has no color attachment is an operation failure.
pub open spec fn spec_validate_framebuffer(s: ContextState) -> Result<(), WebGLError> {
    match s.bound_framebuffer {
        None => Ok(()),
        Some(id) => {
            let f = s.framebuffers@[id - 1];
            if spec_fb_status(s, f) != constants::FRAMEBUFFER_COMPLETE {
                Err(WebGLError::InvalidFramebufferOperation)
            } else if f.color is None {
                Err(WebGLError::InvalidOperation)
            } else {
                Ok(())
            }
        },
    }
}

impl WebGLRenderingContext {
    /// Dimensions an attachment contributes to its framebuffer.
    fn attachment_size(&self, a: WebGLAttachment) -> (r: Option<(u32, u32)>)
        requires
            self.valid(),
            attachment_wf(Some(a), self.state),
        ensures
            r == spec_attachment_size(self.state, a),
    {
        match a {
            WebGLAttachment::Renderbuffer(id) => {
                let rb = &self.state.renderbuffers[(id - 1) as usize];
                if rb.internal_format.is_some() {
                    Some((rb.width, rb.height))
                } else {
                    None
                }
            },
            WebGLAttachment::Texture { id, face, level } => {
                if level < 0 {
                    return None;
                }
                let t = &self.state.textures[(id - 1) as usize];
                match crate::objects::find_image(&t.images, face, level as u32) {
                    Some(info) => Some((info.width, info.height)),
                    None => None,
                }
            },
        }
    }

    /// Dimensions of one attachment point, `None` when the point is empty
    /// or its store is uninitialized; the flag says whether the point is
    /// populated.
    fn slot_size(&self, a: &Option<WebGLAttachment>) -> (r: (bool, Option<(u32, u32)>))
        requires
            self.valid(),
            attachment_wf(*a, self.state),
        ensures
            r.0 == (a is Some),
            a matches Some(att) ==> r.1 == spec_attachment_size(self.state, *att),
            a is None ==> r.1 is None,
    {
        match a {
            Some(att) => (true, self.attachment_size(*att)),
            None => (false, None),
        }
    }

    /// The completeness status of one framebuffer object.
    pub fn framebuffer_status(&self, f: &FramebufferState) -> (r: u32)
        requires
            self.valid(),
            framebuffer_wf(*f, self.state),
        ensures
            r == spec_fb_status(self.state, *f),
    {
        let (c_present, c_size) = self.slot_size(&f.color);
        let (d_present, d_size) = self.slot_size(&f.depth);
        let (s_present, s_size) = self.slot_size(&f.stencil);
        let (ds_present, ds_size) = self.slot_size(&f.depthstencil);
        if !c_present && !d_present && !s_present && !ds_present {
            return constants::FRAMEBUFFER_INCOMPLETE_MISSING_ATTACHMENT;
        }
        let bad = (c_present && match c_size {
            Some(sz) => sz.0 == 0 || sz.1 == 0,
            None => true,
        }) || (d_present && match d_size {
            Some(sz) => sz.0 == 0 || sz.1 == 0,
            None => true,
        }) || (s_present && match s_size {
            Some(sz) => sz.0 == 0 || sz.1 == 0,
            None => true,
        }) || (ds_present && match ds_size {
            Some(sz) => sz.0 == 0 || sz.1 == 0,
            None => true,
        });
        if bad {
            return constants::FRAMEBUFFER_INCOMPLETE_ATTACHMENT;
        }
        let first: Option<(u32, u32)> = if c_present {
            c_size
        } else if d_present {
            d_size
        } else if s_present {
            s_size
        } else {
            ds_size
        };
        match first {
            Some(sz) => {
                if (c_present && c_size != Some(sz)) || (d_present && d_size != Some(sz)) || (
                s_present && s_size != Some(sz)) || (ds_present && ds_size != Some(sz)) {
                    constants::FRAMEBUFFER_INCOMPLETE_DIMENSIONS
                } else {
                    constants::FRAMEBUFFER_COMPLETE
                }
            },
            None => constants::FRAMEBUFFER_INCOMPLETE_ATTACHMENT,
        }
    }

    /// The dimensions of the first populated attachment point.
    pub(crate) fn fb_first_size(&self, f: &FramebufferState) -> (r: Option<(u32, u32)>)
        requires
            self.valid(),
            framebuffer_wf(*f, self.state),
        ensures
            r == spec_fb_first_size(self.state, *f),
    {
        let (c_present, c_size) = self.slot_size(&f.color);
        if c_present {
            return c_size;
        }
        let (d_present, d_size) = self.slot_size(&f.depth);
        if d_present {
            return d_size;
        }
        let (s_present, s_size) = self.slot_size(&f.stencil);
        if s_present {
            return s_size;
        }
        let (ds_present, ds_size) = self.slot_size(&f.depthstencil);
        if ds_present {
            return ds_size;
        }
        None
    }

    /// Checks the bound framebuffer's fitness for a draw, clear or read.
    pub fn validate_framebuffer(&self) -> (r: Result<(), WebGLError>)
        requires
            self.valid(),
        ensures
            r == spec_validate_framebuffer(self.state),
    {
        match self.state.bound_framebuffer {
            None => Ok(()),
            Some(id) => {
                let f = &self.state.framebuffers[(id - 1) as usize];
                let status = self.framebuffer_status(f);
                if status != constants::FRAMEBUFFER_COMPLETE {
                    Err(WebGLError::InvalidFramebufferOperation)
                } else if f.color.is_none() {
                    Err(WebGLError::InvalidOperation)
                } else {
                    Ok(())
                }
            },
        }
    }
}

/// A table of initial vertex attribute slots of the given size.
pub fn initial_attribs(n: u32) -> (r: Vec<VertexAttribData>)
    ensures
        r@.len() == n,
        forall|i: int| 0 <= i < r@.len() ==> r@[i] == VertexAttribData::spec_initial(),
{
    let mut attribs: Vec<VertexAttribData> = Vec::new();
    let mut i: u32 = 0;
    while i < n
        invariant
            i <= n,
            attribs@.len() == i,
            forall|j: int| 0 <= j < attribs@.len() ==> attribs@[j]
                == VertexAttribData::spec_initial(),
        decreases n - i,
    {
        attribs.push(VertexAttribData::initial());
        i = i + 1;
    }
    attribs
}

} // verus!
