//! Object creation, binding and liveness predicates.
//!
//! Identifiers are allocated by this core and announced to the backend in
//! the create command; an object handle carries the creating context's
//! identity token, and every use through another context is rejected with
//! `InvalidOperation` before any state changes.

use vstd::prelude::*;

use crate::command::{FramebufferBinding, WebGLCommand};
use crate::constants;
use crate::context::{
    applied, rejected, sent1, unchanged, ContextState, WebGLRenderingContext,
};
use crate::error::WebGLError;
use crate::objects::{
    BufferState, FramebufferState, ProgramState, RenderbufferState, ShaderState, TextureState,
    VertexArrayState, WebGLBuffer, WebGLFramebuffer, WebGLProgram, WebGLRenderbuffer, WebGLShader,
    WebGLTexture, WebGLVertexArrayObjectOES,
};
use crate::textures::{spec_is_texture_target, Textures, TextureUnit};

verus! {

/// The largest registry size for which another identifier can be
/// allocated.
pub const MAX_OBJECTS: usize = 0xFFFF_FFFE;

impl WebGLRenderingContext {
    /// The handle names a buffer this context created.
    pub open spec fn owns_buffer(self, h: WebGLBuffer) -> bool {
        h.ctx_id == self.ctx_id && 0 < h.id <= self.state.buffers@.len()
    }

    /// The handle names a texture this context created.
    pub open spec fn owns_texture(self, h: WebGLTexture) -> bool {
        h.ctx_id == self.ctx_id && 0 < h.id <= self.state.textures@.len()
    }

    /// The handle names a renderbuffer this context created.
    pub open spec fn owns_renderbuffer(self, h: WebGLRenderbuffer) -> bool {
        h.ctx_id == self.ctx_id && 0 < h.id <= self.state.renderbuffers@.len()
    }

    /// The handle names a framebuffer this context created.
    pub open spec fn owns_framebuffer(self, h: WebGLFramebuffer) -> bool {
        h.ctx_id == self.ctx_id && 0 < h.id <= self.state.framebuffers@.len()
    }

    /// The handle names a program this context created.
    pub open spec fn owns_program(self, h: WebGLProgram) -> bool {
        h.ctx_id == self.ctx_id && 0 < h.id <= self.state.programs@.len()
    }

    /// The handle names a shader this context created.
    pub open spec fn owns_shader(self, h: WebGLShader) -> bool {
        h.ctx_id == self.ctx_id && 0 < h.id <= self.state.shaders@.len()
    }

    /// The handle names a vertex array object this context created; the
    /// default object in slot zero is never handed out.
    pub open spec fn owns_vao(self, h: WebGLVertexArrayObjectOES) -> bool {
        h.ctx_id == self.ctx_id && 0 < h.id < self.state.vaos@.len()
    }

    /// The handle names a buffer this context created.
    pub fn validate_buffer_ownership(&self, h: &WebGLBuffer) -> (r: bool)
        ensures
            r == self.owns_buffer(*h),
    {
        h.ctx_id == self.ctx_id && 0 < h.id && h.id as usize <= self.state.buffers.len()
    }

    /// The handle names a texture this context created.
    pub fn validate_texture_ownership(&self, h: &WebGLTexture) -> (r: bool)
        ensures
            r == self.owns_texture(*h),
    {
        h.ctx_id == self.ctx_id && 0 < h.id && h.id as usize <= self.state.textures.len()
    }

    /// The handle names a renderbuffer this context created.
    pub fn validate_renderbuffer_ownership(&self, h: &WebGLRenderbuffer) -> (r: bool)
        ensures
            r == self.owns_renderbuffer(*h),
    {
        h.ctx_id == self.ctx_id && 0 < h.id && h.id as usize <= self.state.renderbuffers.len()
    }

    /// The handle names a framebuffer this context created.
    pub fn validate_framebuffer_ownership(&self, h: &WebGLFramebuffer) -> (r: bool)
        ensures
            r == self.owns_framebuffer(*h),
    {
        h.ctx_id == self.ctx_id && 0 < h.id && h.id as usize <= self.state.framebuffers.len()
    }

    /// The handle names a program this context created.
    pub fn validate_program_ownership(&self, h: &WebGLProgram) -> (r: bool)
        ensures
            r == self.owns_program(*h),
    {
        h.ctx_id == self.ctx_id && 0 < h.id && h.id as usize <= self.state.programs.len()
    }

    /// The handle names a shader this context created.
    pub fn validate_shader_ownership(&self, h: &WebGLShader) -> (r: bool)
        ensures
            r == self.owns_shader(*h),
    {
        h.ctx_id == self.ctx_id && 0 < h.id && h.id as usize <= self.state.shaders.len()
    }

    /// The handle names a vertex array object this context created.
    pub fn validate_vao_ownership(&self, h: &WebGLVertexArrayObjectOES) -> (r: bool)
        ensures
            r == self.owns_vao(*h),
    {
        h.ctx_id == self.ctx_id && 0 < h.id && (h.id as usize) < self.state.vaos.len()
    }

    // -----------------------------------------------------------------------
    // Creation: allocate an identifier, zero the state, announce it.

    /// Creates a buffer object.
    pub fn CreateBuffer(&mut self) -> (r: Option<WebGLBuffer>)
        requires
            old(self).valid(),
        ensures
            final(self).valid(),
            if old(self).lost {
                rejected(*old(self), *final(self), WebGLError::ContextLost) && r is None
            } else if old(self).state.buffers@.len() >= MAX_OBJECTS {
                rejected(*old(self), *final(self), WebGLError::OutOfMemory) && r is None
            } else {
                let id = (old(self).state.buffers@.len() + 1) as u32;
                applied(
                    *old(self),
                    *final(self),
                    ContextState {
                        buffers: final(self).state.buffers,
                        ..old(self).state
                    },
                    seq![WebGLCommand::CreateBuffer(id)],
                ) && final(self).state.buffers@ == old(self).state.buffers@.push(
                    BufferState {
                        target: None,
                        capacity: 0,
                        usage: constants::STATIC_DRAW,
                        marked_for_deletion: false,
                        attached: 0,
                        released: false,
                    },
                ) && r == Some(WebGLBuffer { ctx_id: old(self).ctx_id, id })
            },
    {
        if self.check_lost() {
            return None;
        }
        if self.state.buffers.len() >= MAX_OBJECTS {
            self.webgl_error(WebGLError::OutOfMemory);
            return None;
        }
        let id: u32 = (self.state.buffers.len() + 1) as u32;
        self.state.buffers.push(
            BufferState {
                target: None,
                capacity: 0,
                usage: constants::STATIC_DRAW,
                marked_for_deletion: false,
                attached: 0,
                released: false,
            },
        );
        self.send_command(WebGLCommand::CreateBuffer(id));
        Some(WebGLBuffer { ctx_id: self.ctx_id, id })
    }

    /// Creates a texture object.
    pub fn CreateTexture(&mut self) -> (r: Option<WebGLTexture>)
        requires
            old(self).valid(),
        ensures
            final(self).valid(),
            if old(self).lost {
                rejected(*old(self), *final(self), WebGLError::ContextLost) && r is None
            } else if old(self).state.textures@.len() >= MAX_OBJECTS {
                rejected(*old(self), *final(self), WebGLError::OutOfMemory) && r is None
            } else {
                let id = (old(self).state.textures@.len() + 1) as u32;
                applied(
                    *old(self),
                    *final(self),
                    ContextState {
                        textures: final(self).state.textures,
                        ..old(self).state
                    },
                    seq![WebGLCommand::CreateTexture(id)],
                ) && final(self).state.textures@ == old(self).state.textures@.push(
                    TextureState {
                        target: None,
                        deleted: false,
                        min_filter: constants::NEAREST_MIPMAP_LINEAR,
                        mag_filter: constants::LINEAR,
                        images: final(self).state.textures@.last().images,
                    },
                ) && final(self).state.textures@.last().images@ == Seq::<
                    crate::objects::TexImageInfo,
                >::empty() && r == Some(WebGLTexture { ctx_id: old(self).ctx_id, id })
            },
    {
        if self.check_lost() {
            return None;
        }
        if self.state.textures.len() >= MAX_OBJECTS {
            self.webgl_error(WebGLError::OutOfMemory);
            return None;
        }
        let id: u32 = (self.state.textures.len() + 1) as u32;
        self.state.textures.push(
            TextureState {
                target: None,
                deleted: false,
                min_filter: constants::NEAREST_MIPMAP_LINEAR,
                mag_filter: constants::LINEAR,
                images: Vec::new(),
            },
        );
        self.send_command(WebGLCommand::CreateTexture(id));
        Some(WebGLTexture { ctx_id: self.ctx_id, id })
    }

    /// Creates a renderbuffer object.
    pub fn CreateRenderbuffer(&mut self) -> (r: Option<WebGLRenderbuffer>)
        requires
            old(self).valid(),
        ensures
            final(self).valid(),
            if old(self).lost {
                rejected(*old(self), *final(self), WebGLError::ContextLost) && r is None
            } else if old(self).state.renderbuffers@.len() >= MAX_OBJECTS {
                rejected(*old(self), *final(self), WebGLError::OutOfMemory) && r is None
            } else {
                let id = (old(self).state.renderbuffers@.len() + 1) as u32;
                applied(
                    *old(self),
                    *final(self),
                    ContextState {
                        renderbuffers: final(self).state.renderbuffers,
                        ..old(self).state
                    },
                    seq![WebGLCommand::CreateRenderbuffer(id)],
                ) && final(self).state.renderbuffers@ == old(self).state.renderbuffers@.push(
                    RenderbufferState {
                        ever_bound: false,
                        deleted: false,
                        internal_format: None,
                        width: 0,
                        height: 0,
                    },
                ) && r == Some(WebGLRenderbuffer { ctx_id: old(self).ctx_id, id })
            },
    {
        if self.check_lost() {
            return None;
        }
        if self.state.renderbuffers.len() >= MAX_OBJECTS {
            self.webgl_error(WebGLError::OutOfMemory);
            return None;
        }
        let id: u32 = (self.state.renderbuffers.len() + 1) as u32;
        self.state.renderbuffers.push(
            RenderbufferState {
                ever_bound: false,
                deleted: false,
                internal_format: None,
                width: 0,
                height: 0,
            },
        );
        self.send_command(WebGLCommand::CreateRenderbuffer(id));
        Some(WebGLRenderbuffer { ctx_id: self.ctx_id, id })
    }

    /// Creates a framebuffer object.
    pub fn CreateFramebuffer(&mut self) -> (r: Option<WebGLFramebuffer>)
        requires
            old(self).valid(),
        ensures
            final(self).valid(),
            if old(self).lost {
                rejected(*old(self), *final(self), WebGLError::ContextLost) && r is None
            } else if old(self).state.framebuffers@.len() >= MAX_OBJECTS {
                rejected(*old(self), *final(self), WebGLError::OutOfMemory) && r is None
            } else {
                let id = (old(self).state.framebuffers@.len() + 1) as u32;
                applied(
                    *old(self),
                    *final(self),
                    ContextState {
                        framebuffers: final(self).state.framebuffers,
                        ..old(self).state
                    },
                    seq![WebGLCommand::CreateFramebuffer(id)],
                ) && final(self).state.framebuffers@ == old(self).state.framebuffers@.push(
                    FramebufferState {
                        target: None,
                        deleted: false,
                        color: None,
                        depth: None,
                        stencil: None,
                        depthstencil: None,
                    },
                ) && r == Some(WebGLFramebuffer { ctx_id: old(self).ctx_id, id })
            },
    {
        if self.check_lost() {
            return None;
        }
        if self.state.framebuffers.len() >= MAX_OBJECTS {
            self.webgl_error(WebGLError::OutOfMemory);
            return None;
        }
        let id: u32 = (self.state.framebuffers.len() + 1) as u32;
        self.state.framebuffers.push(
            FramebufferState {
                target: None,
                deleted: false,
                color: None,
                depth: None,
                stencil: None,
                depthstencil: None,
            },
        );
        self.send_command(WebGLCommand::CreateFramebuffer(id));
        Some(WebGLFramebuffer { ctx_id: self.ctx_id, id })
    }

    /// Creates a program object.
    pub fn CreateProgram(&mut self) -> (r: Option<WebGLProgram>)
        requires
            old(self).valid(),
        ensures
            final(self).valid(),
            if old(self).lost {
                rejected(*old(self), *final(self), WebGLError::ContextLost) && r is None
            } else if old(self).state.programs@.len() >= MAX_OBJECTS {
                rejected(*old(self), *final(self), WebGLError::OutOfMemory) && r is None
            } else {
                let id = (old(self).state.programs@.len() + 1) as u32;
                applied(
                    *old(self),
                    *final(self),
                    ContextState {
                        programs: final(self).state.programs,
                        ..old(self).state
                    },
                    seq![WebGLCommand::CreateProgram(id)],
                ) && final(self).state.programs@.len() == old(self).state.programs@.len() + 1
                    && final(self).state.programs@.subrange(
                    0,
                    old(self).state.programs@.len() as int,
                ) == old(self).state.programs@ && is_fresh_program(
                    final(self).state.programs@.last(),
                ) && r == Some(WebGLProgram { ctx_id: old(self).ctx_id, id })
            },
    {
        if self.check_lost() {
            return None;
        }
        if self.state.programs.len() >= MAX_OBJECTS {
            self.webgl_error(WebGLError::OutOfMemory);
            return None;
        }
        let id: u32 = (self.state.programs.len() + 1) as u32;
        let ghost pre = self.state.programs@;
        self.state.programs.push(
            ProgramState {
                marked_for_deletion: false,
                in_use: false,
                linked: false,
                link_generation: 0,
                vertex_shader: None,
                fragment_shader: None,
                active_attribs: Vec::new(),
                active_uniforms: Vec::new(),
            },
        );
        proof {
            assert(self.state.programs@.subrange(0, pre.len() as int) =~= pre);
        }
        self.send_command(WebGLCommand::CreateProgram(id));
        Some(WebGLProgram { ctx_id: self.ctx_id, id })
    }

    /// Creates a shader object of the given kind; a kind outside vertex
    /// and fragment is rejected with `InvalidEnum`.
    pub fn CreateShader(&mut self, shader_type: u32) -> (r: Option<WebGLShader>)
        requires
            old(self).valid(),
        ensures
            final(self).valid(),
            if old(self).lost {
                rejected(*old(self), *final(self), WebGLError::ContextLost) && r is None
            } else if shader_type != constants::VERTEX_SHADER && shader_type
                != constants::FRAGMENT_SHADER {
                rejected(*old(self), *final(self), WebGLError::InvalidEnum) && r is None
            } else if old(self).state.shaders@.len() >= MAX_OBJECTS {
                rejected(*old(self), *final(self), WebGLError::OutOfMemory) && r is None
            } else {
                let id = (old(self).state.shaders@.len() + 1) as u32;
                applied(
                    *old(self),
                    *final(self),
                    ContextState {
                        shaders: final(self).state.shaders,
                        ..old(self).state
                    },
                    seq![WebGLCommand::CreateShader(id, shader_type)],
                ) && final(self).state.shaders@.len() == old(self).state.shaders@.len() + 1
                    && final(self).state.shaders@.subrange(0, old(self).state.shaders@.len() as int)
                    == old(self).state.shaders@ && is_fresh_shader(
                    final(self).state.shaders@.last(),
                    shader_type,
                ) && r == Some(WebGLShader { ctx_id: old(self).ctx_id, id })
            },
    {
        if self.check_lost() {
            return None;
        }
        match shader_type {
            constants::VERTEX_SHADER | constants::FRAGMENT_SHADER => (),
            _ => {
                self.webgl_error(WebGLError::InvalidEnum);
                return None;
            },
        }
        if self.state.shaders.len() >= MAX_OBJECTS {
            self.webgl_error(WebGLError::OutOfMemory);
            return None;
        }
        let id: u32 = (self.state.shaders.len() + 1) as u32;
        let ghost pre = self.state.shaders@;
        self.state.shaders.push(
            ShaderState {
                shader_type,
                marked_for_deletion: false,
                source: String::new(),
                compiled: false,
                compile_ok: false,
            },
        );
        proof {
            assert(self.state.shaders@.subrange(0, pre.len() as int) =~= pre);
        }
        self.send_command(WebGLCommand::CreateShader(id, shader_type));
        Some(WebGLShader { ctx_id: self.ctx_id, id })
    }

    /// Creates a vertex array object.
    pub fn create_vertex_array(&mut self) -> (r: Option<WebGLVertexArrayObjectOES>)
        requires
            old(self).valid(),
        ensures
            final(self).valid(),
            if old(self).lost {
                rejected(*old(self), *final(self), WebGLError::ContextLost) && r is None
            } else if old(self).state.vaos@.len() >= MAX_OBJECTS {
                rejected(*old(self), *final(self), WebGLError::OutOfMemory) && r is None
            } else {
                let id = old(self).state.vaos@.len() as u32;
                applied(
                    *old(self),
                    *final(self),
                    ContextState {
                        vaos: final(self).state.vaos,
                        ..old(self).state
                    },
                    seq![WebGLCommand::CreateVertexArray(id)],
                ) && final(self).state.vaos@.len() == old(self).state.vaos@.len() + 1 && final(self).state.vaos@.subrange(0, old(self).state.vaos@.len() as int) == old(self).state.vaos@ && is_fresh_vao(final(self).state.vaos@.last(), old(self).limits)
                    && r == Some(WebGLVertexArrayObjectOES { ctx_id: old(self).ctx_id, id })
            },
    {
        if self.check_lost() {
            return None;
        }
        if self.state.vaos.len() >= MAX_OBJECTS {
            self.webgl_error(WebGLError::OutOfMemory);
            return None;
        }
        let id: u32 = self.state.vaos.len() as u32;
        let ghost pre = self.state.vaos@;
        let attribs = crate::context::initial_attribs(self.limits.max_vertex_attribs);
        self.state.vaos.push(
            VertexArrayState {
                deleted: false,
                ever_bound: false,
                element_array_buffer: None,
                attribs,
            },
        );
        proof {
            assert(self.state.vaos@.subrange(0, pre.len() as int) =~= pre);
        }
        self.send_command(WebGLCommand::CreateVertexArray(id));
        Some(WebGLVertexArrayObjectOES { ctx_id: self.ctx_id, id })
    }

    // -----------------------------------------------------------------------
    // Liveness predicates.

    /// Whether the handle names a live buffer that has been bound.
    pub fn IsBuffer(&mut self, buffer: Option<&WebGLBuffer>) -> (r: bool)
        requires
            old(self).valid(),
        ensures
            final(self).valid(),
            if old(self).lost {
                rejected(*old(self), *final(self), WebGLError::ContextLost) && !r
            } else {
                unchanged(*old(self), *final(self)) && r == match buffer {
                    Some(h) => old(self).owns_buffer(*h) && old(self).state.buffers@[h.id
                        - 1].target is Some && !old(self).state.buffers@[h.id
                        - 1].marked_for_deletion,
                    None => false,
                }
            },
    {
        if self.check_lost() {
            return false;
        }
        match buffer {
            Some(h) => {
                if !self.validate_buffer_ownership(h) {
                    return false;
                }
                let b = &self.state.buffers[(h.id - 1) as usize];
                b.target.is_some() && !b.marked_for_deletion
            },
            None => false,
        }
    }

    /// Whether the handle names a live framebuffer that has been bound.
    pub fn IsFramebuffer(&mut self, frame_buffer: Option<&WebGLFramebuffer>) -> (r: bool)
        requires
            old(self).valid(),
        ensures
            final(self).valid(),
            if old(self).lost {
                rejected(*old(self), *final(self), WebGLError::ContextLost) && !r
            } else {
                unchanged(*old(self), *final(self)) && r == match frame_buffer {
                    Some(h) => old(self).owns_framebuffer(*h) && old(self).state.framebuffers@[h.id
                        - 1].target is Some && !old(self).state.framebuffers@[h.id - 1].deleted,
                    None => false,
                }
            },
    {
        if self.check_lost() {
            return false;
        }
        match frame_buffer {
            Some(h) => {
                if !self.validate_framebuffer_ownership(h) {
                    return false;
                }
                let f = &self.state.framebuffers[(h.id - 1) as usize];
                f.target.is_some() && !f.deleted
            },
            None => false,
        }
    }

    /// Whether the handle names a live program.
    pub fn IsProgram(&mut self, program: Option<&WebGLProgram>) -> (r: bool)
        requires
            old(self).valid(),
        ensures
            final(self).valid(),
            if old(self).lost {
                rejected(*old(self), *final(self), WebGLError::ContextLost) && !r
            } else {
                unchanged(*old(self), *final(self)) && r == match program {
                    Some(h) => old(self).owns_program(*h) && !old(self).state.programs@[h.id
                        - 1].marked_for_deletion,
                    None => false,
                }
            },
    {
        if self.check_lost() {
            return false;
        }
        match program {
            Some(h) => {
                if !self.validate_program_ownership(h) {
                    return false;
                }
                !self.state.programs[(h.id - 1) as usize].marked_for_deletion
            },
            None => false,
        }
    }

    /// Whether the handle names a live renderbuffer that has been bound.
    pub fn IsRenderbuffer(&mut self, render_buffer: Option<&WebGLRenderbuffer>) -> (r: bool)
        requires
            old(self).valid(),
        ensures
            final(self).valid(),
            if old(self).lost {
                rejected(*old(self), *final(self), WebGLError::ContextLost) && !r
            } else {
                unchanged(*old(self), *final(self)) && r == match render_buffer {
                    Some(h) => old(self).owns_renderbuffer(*h) && old(self).state.renderbuffers@[h.id - 1].ever_bound && !old(self).state.renderbuffers@[h.id - 1].deleted,
                    None => false,
                }
            },
    {
        if self.check_lost() {
            return false;
        }
        match render_buffer {
            Some(h) => {
                if !self.validate_renderbuffer_ownership(h) {
                    return false;
                }
                let rb = &self.state.renderbuffers[(h.id - 1) as usize];
                rb.ever_bound && !rb.deleted
            },
            None => false,
        }
    }

    /// Whether the handle names a live shader.
    pub fn IsShader(&mut self, shader: Option<&WebGLShader>) -> (r: bool)
        requires
            old(self).valid(),
        ensures
            final(self).valid(),
            if old(self).lost {
                rejected(*old(self), *final(self), WebGLError::ContextLost) && !r
            } else {
                unchanged(*old(self), *final(self)) && r == match shader {
                    Some(h) => old(self).owns_shader(*h) && !old(self).state.shaders@[h.id
                        - 1].marked_for_deletion,
                    None => false,
                }
            },
    {
        if self.check_lost() {
            return false;
        }
        match shader {
            Some(h) => {
                if !self.validate_shader_ownership(h) {
                    return false;
                }
                !self.state.shaders[(h.id - 1) as usize].marked_for_deletion
            },
            None => false,
        }
    }

    /// Whether the handle names a live texture that has been bound.
    pub fn IsTexture(&mut self, texture: Option<&WebGLTexture>) -> (r: bool)
        requires
            old(self).valid(),
        ensures
            final(self).valid(),
            if old(self).lost {
                rejected(*old(self), *final(self), WebGLError::ContextLost) && !r
            } else {
                unchanged(*old(self), *final(self)) && r == match texture {
                    Some(h) => old(self).owns_texture(*h) && old(self).state.textures@[h.id
                        - 1].target is Some && !old(self).state.textures@[h.id - 1].deleted,
                    None => false,
                }
            },
    {
        if self.check_lost() {
            return false;
        }
        match texture {
            Some(h) => {
                if !self.validate_texture_ownership(h) {
                    return false;
                }
                let t = &self.state.textures[(h.id - 1) as usize];
                t.target.is_some() && !t.deleted
            },
            None => false,
        }
    }

    /// Whether the handle names a live vertex array object that has been
    /// bound.
    pub fn is_vertex_array(&mut self, vao: Option<&WebGLVertexArrayObjectOES>) -> (r: bool)
        requires
            old(self).valid(),
        ensures
            final(self).valid(),
            if old(self).lost {
                rejected(*old(self), *final(self), WebGLError::ContextLost) && !r
            } else {
                unchanged(*old(self), *final(self)) && r == match vao {
                    Some(h) => old(self).owns_vao(*h) && old(self).state.vaos@[h.id as int].ever_bound
                        && !old(self).state.vaos@[h.id as int].deleted,
                    None => false,
                }
            },
    {
        if self.check_lost() {
            return false;
        }
        match vao {
            Some(h) => {
                if !self.validate_vao_ownership(h) {
                    return false;
                }
                let v = &self.state.vaos[h.id as usize];
                v.ever_bound && !v.deleted
            },
            None => false,
        }
    }

    // -----------------------------------------------------------------------
    // Binding.

    /// Selects the active texture unit by its GL enum.
    pub fn ActiveTexture(&mut self, texture: u32)
        requires
            old(self).valid(),
        ensures
            final(self).valid(),
            if old(self).lost {
                rejected(*old(self), *final(self), WebGLError::ContextLost)
            } else if constants::TEXTURE0 <= texture && texture - constants::TEXTURE0 < old(self).state.tex_units.units@.len() {
                applied(
                    *old(self),
                    *final(self),
                    ContextState {
                        tex_units: final(self).state.tex_units,
                        ..old(self).state
                    },
                    seq![WebGLCommand::ActiveTexture(texture)],
                ) && final(self).state.tex_units.active_unit == texture - constants::TEXTURE0
                    && final(self).state.tex_units.units@ == old(self).state.tex_units.units@
            } else {
                rejected(*old(self), *final(self), WebGLError::InvalidEnum)
            },
    {
        if self.check_lost() {
            return ;
        }
        match self.state.tex_units.set_active_unit_enum(texture) {
            Ok(()) => self.send_command(WebGLCommand::ActiveTexture(texture)),
            Err(e) => self.webgl_error(e),
        }
    }

    /// Binds a texture to the active unit's slot for the target, or clears
    /// the slot. A texture may only ever be bound to one target kind;
    /// binding a deleted texture or one first bound to the other target is
    /// rejected with `InvalidOperation`.
    pub fn BindTexture(&mut self, target: u32, texture: Option<&WebGLTexture>)
        requires
            old(self).valid(),
        ensures
            final(self).valid(),
            if old(self).lost {
                rejected(*old(self), *final(self), WebGLError::ContextLost)
            } else if texture matches Some(h) && !old(self).owns_texture(*h) {
                rejected(*old(self), *final(self), WebGLError::InvalidOperation)
            } else if !spec_is_texture_target(target) {
                rejected(*old(self), *final(self), WebGLError::InvalidEnum)
            } else {
                match texture {
                    Some(h) => {
                        let t = old(self).state.textures@[h.id - 1];
                        if t.deleted || (t.target is Some && t.target != Some(target)) {
                            rejected(*old(self), *final(self), WebGLError::InvalidOperation)
                        } else {
                            applied(
                                *old(self),
                                *final(self),
                                ContextState {
                                    textures: final(self).state.textures,
                                    tex_units: final(self).state.tex_units,
                                    ..old(self).state
                                },
                                seq![WebGLCommand::BindTexture(target, Some(h.id))],
                            ) && final(self).state.textures@ == old(self).state.textures@.update(
                                h.id - 1,
                                TextureState { target: Some(target), ..t },
                            ) && final(self).state.tex_units.active_unit == old(self).state.tex_units.active_unit && final(self).state.tex_units.units@
                                == old(self).state.tex_units.units@.update(
                                old(self).state.tex_units.active_unit as int,
                                (if target == constants::TEXTURE_2D {
                                    TextureUnit {
                                        tex_2d: Some(h.id),
                                        ..old(self).state.tex_units.units@[old(self).state.tex_units.active_unit as int]
                                    }
                                } else {
                                    TextureUnit {
                                        tex_cube_map: Some(h.id),
                                        ..old(self).state.tex_units.units@[old(self).state.tex_units.active_unit as int]
                                    }
                                }),
                            )
                        }
                    },
                    None => {
                        applied(
                            *old(self),
                            *final(self),
                            ContextState {
                                tex_units: final(self).state.tex_units,
                                ..old(self).state
                            },
                            seq![WebGLCommand::BindTexture(target, None)],
                        ) && final(self).state.tex_units.active_unit == old(self).state.tex_units.active_unit && final(self).state.tex_units.units@ == old(self).state.tex_units.units@.update(
                            old(self).state.tex_units.active_unit as int,
                            (if target == constants::TEXTURE_2D {
                                TextureUnit {
                                    tex_2d: None,
                                    ..old(self).state.tex_units.units@[old(self).state.tex_units.active_unit as int]
                                }
                            } else {
                                TextureUnit {
                                    tex_cube_map: None,
                                    ..old(self).state.tex_units.units@[old(self).state.tex_units.active_unit as int]
                                }
                            }),
                        )
                    },
                }
            },
    {
        if self.check_lost() {
            return ;
        }
        if let Some(h) = texture {
            if !self.validate_texture_ownership(h) {
                return self.webgl_error(WebGLError::InvalidOperation);
            }
        }
        if target != constants::TEXTURE_2D && target != constants::TEXTURE_CUBE_MAP {
            return self.webgl_error(WebGLError::InvalidEnum);
        }
        match texture {
            Some(h) => {
                let idx = (h.id - 1) as usize;
                let deleted = self.state.textures[idx].deleted;
                let had_target = self.state.textures[idx].target;
                if deleted {
                    return self.webgl_error(WebGLError::InvalidOperation);
                }
                match had_target {
                    Some(t) if t != target => {
                        return self.webgl_error(WebGLError::InvalidOperation);
                    },
                    _ => (),
                }
                self.state.textures[idx].target = Some(target);
                self.state.tex_units.set_active_texture_slot(target, Some(h.id));
                self.send_command(WebGLCommand::BindTexture(target, Some(h.id)));
            },
            None => {
                self.state.tex_units.set_active_texture_slot(target, None);
                self.send_command(WebGLCommand::BindTexture(target, None));
            },
        }
    }

    /// Binds a framebuffer, or restores the default framebuffer. Binding a
    /// deleted framebuffer is rejected with `InvalidOperation` and leaves
    /// the current binding untouched.
    pub fn BindFramebuffer(&mut self, target: u32, framebuffer: Option<&WebGLFramebuffer>)
        requires
            old(self).valid(),
        ensures
            final(self).valid(),
            if old(self).lost {
                rejected(*old(self), *final(self), WebGLError::ContextLost)
            } else if framebuffer matches Some(h) && !old(self).owns_framebuffer(*h) {
                rejected(*old(self), *final(self), WebGLError::InvalidOperation)
            } else if target != constants::FRAMEBUFFER {
                rejected(*old(self), *final(self), WebGLError::InvalidEnum)
            } else {
                match framebuffer {
                    Some(h) => {
                        let f = old(self).state.framebuffers@[h.id - 1];
                        if f.deleted {
                            rejected(*old(self), *final(self), WebGLError::InvalidOperation)
                        } else {
                            applied(
                                *old(self),
                                *final(self),
                                ContextState {
                                    bound_framebuffer: Some(h.id),
                                    framebuffers: final(self).state.framebuffers,
                                    ..old(self).state
                                },
                                seq![
                                    WebGLCommand::BindFramebuffer(
                                        target,
                                        FramebufferBinding::Explicit(h.id),
                                    ),
                                ],
                            ) && final(self).state.framebuffers@ == old(self).state.framebuffers@.update(
                                h.id - 1,
                                FramebufferState { target: Some(target), ..f },
                            )
                        }
                    },
                    None => {
                        applied(
                            *old(self),
                            *final(self),
                            ContextState { bound_framebuffer: None, ..old(self).state },
                            seq![
                                WebGLCommand::BindFramebuffer(target, FramebufferBinding::Default),
                            ],
                        )
                    },
                }
            },
    {
        if self.check_lost() {
            return ;
        }
        if let Some(h) = framebuffer {
            if !self.validate_framebuffer_ownership(h) {
                return self.webgl_error(WebGLError::InvalidOperation);
            }
        }
        if target != constants::FRAMEBUFFER {
            return self.webgl_error(WebGLError::InvalidEnum);
        }
        match framebuffer {
            Some(h) => {
                let idx = (h.id - 1) as usize;
                if self.state.framebuffers[idx].deleted {
                    return self.webgl_error(WebGLError::InvalidOperation);
                }
                self.state.framebuffers[idx].target = Some(target);
                self.state.bound_framebuffer = Some(h.id);
                self.send_command(
                    WebGLCommand::BindFramebuffer(target, FramebufferBinding::Explicit(h.id)),
                );
            },
            None => {
                self.state.bound_framebuffer = None;
                self.send_command(
                    WebGLCommand::BindFramebuffer(target, FramebufferBinding::Default),
                );
            },
        }
    }

    /// Binds a renderbuffer, or clears the binding. Binding a deleted
    /// renderbuffer records `InvalidOperation` and unbinds.
    #[verifier::rlimit(100)]
    pub fn BindRenderbuffer(&mut self, target: u32, renderbuffer: Option<&WebGLRenderbuffer>)
        requires
            old(self).valid(),
        ensures
            final(self).valid(),
            if old(self).lost {
                rejected(*old(self), *final(self), WebGLError::ContextLost)
            } else if renderbuffer matches Some(h) && !old(self).owns_renderbuffer(*h) {
                rejected(*old(self), *final(self), WebGLError::InvalidOperation)
            } else if target != constants::RENDERBUFFER {
                rejected(*old(self), *final(self), WebGLError::InvalidEnum)
            } else {
                match renderbuffer {
                    Some(h) => {
                        let rb = old(self).state.renderbuffers@[h.id - 1];
                        if rb.deleted {
                            // the deleted case records the error and unbinds
                            same_but_renderbuffer_unbound(*old(self), *final(self), target)
                        } else {
                            applied(
                                *old(self),
                                *final(self),
                                ContextState {
                                    bound_renderbuffer: Some(h.id),
                                    renderbuffers: final(self).state.renderbuffers,
                                    ..old(self).state
                                },
                                seq![WebGLCommand::BindRenderbuffer(target, Some(h.id))],
                            ) && final(self).state.renderbuffers@ == old(self).state.renderbuffers@.update(
                                h.id - 1,
                                RenderbufferState { ever_bound: true, ..rb },
                            )
                        }
                    },
                    None => {
                        applied(
                            *old(self),
                            *final(self),
                            ContextState { bound_renderbuffer: None, ..old(self).state },
                            seq![WebGLCommand::BindRenderbuffer(target, None)],
                        )
                    },
                }
            },
    {
        if self.check_lost() {
            return ;
        }
        if let Some(h) = renderbuffer {
            if !self.validate_renderbuffer_ownership(h) {
                return self.webgl_error(WebGLError::InvalidOperation);
            }
        }
        if target != constants::RENDERBUFFER {
            return self.webgl_error(WebGLError::InvalidEnum);
        }
        match renderbuffer {
            Some(h) => {
                let idx = (h.id - 1) as usize;
                if self.state.renderbuffers[idx].deleted {
                    self.webgl_error(WebGLError::InvalidOperation);
                    self.state.bound_renderbuffer = None;
                    self.send_command(WebGLCommand::BindRenderbuffer(target, None));
                } else {
                    self.state.renderbuffers[idx].ever_bound = true;
                    self.state.bound_renderbuffer = Some(h.id);
                    self.send_command(WebGLCommand::BindRenderbuffer(target, Some(h.id)));
                }
            },
            None => {
                self.state.bound_renderbuffer = None;
                self.send_command(WebGLCommand::BindRenderbuffer(target, None));
            },
        }
    }

    /// Binds a vertex array object, or restores the default one. Binding a
    /// deleted object is rejected with `InvalidOperation`.
    pub fn bind_vertex_array(&mut self, vao: Option<&WebGLVertexArrayObjectOES>)
        requires
            old(self).valid(),
        ensures
            final(self).valid(),
            if old(self).lost {
                rejected(*old(self), *final(self), WebGLError::ContextLost)
            } else if vao matches Some(h) && !old(self).owns_vao(*h) {
                rejected(*old(self), *final(self), WebGLError::InvalidOperation)
            } else {
                match vao {
                    Some(h) => {
                        let v = old(self).state.vaos@[h.id as int];
                        if v.deleted {
                            rejected(*old(self), *final(self), WebGLError::InvalidOperation)
                        } else {
                            applied(
                                *old(self),
                                *final(self),
                                ContextState {
                                    current_vao: h.id,
                                    vaos: final(self).state.vaos,
                                    ..old(self).state
                                },
                                seq![WebGLCommand::BindVertexArray(Some(h.id))],
                            ) && final(self).state.vaos@ == old(self).state.vaos@.update(
                                h.id as int,
                                VertexArrayState { ever_bound: true, ..v },
                            )
                        }
                    },
                    None => {
                        applied(
                            *old(self),
                            *final(self),
                            ContextState { current_vao: 0, ..old(self).state },
                            seq![WebGLCommand::BindVertexArray(None)],
                        )
                    },
                }
            },
    {
        if self.check_lost() {
            return ;
        }
        if let Some(h) = vao {
            if !self.validate_vao_ownership(h) {
                return self.webgl_error(WebGLError::InvalidOperation);
            }
        }
        match vao {
            Some(h) => {
                let idx = h.id as usize;
                if self.state.vaos[idx].deleted {
                    return self.webgl_error(WebGLError::InvalidOperation);
                }
                self.state.vaos[idx].ever_bound = true;
                self.state.current_vao = h.id;
                self.send_command(WebGLCommand::BindVertexArray(Some(h.id)));
            },
            None => {
                self.state.current_vao = 0;
                self.send_command(WebGLCommand::BindVertexArray(None));
            },
        }
    }

    /// The buffer bound to the array-buffer target.
    pub fn array_buffer(&self) -> (r: Option<u32>)
        ensures
            r == self.state.bound_array_buffer,
    {
        self.state.bound_array_buffer
    }

    /// The buffer bound to a buffer target: the array-buffer slot, or the
    /// current vertex array object's element-array slot. Any other target
    /// is rejected with `InvalidEnum`.
    pub fn bound_buffer(&self, target: u32) -> (r: Result<Option<u32>, WebGLError>)
        requires
            self.valid(),
        ensures
            r == spec_bound_buffer(self.state, target),
    {
        match target {
            constants::ARRAY_BUFFER => Ok(self.state.bound_array_buffer),
            constants::ELEMENT_ARRAY_BUFFER => Ok(
                self.state.vaos[self.state.current_vao as usize].element_array_buffer,
            ),
            _ => Err(WebGLError::InvalidEnum),
        }
    }
}

/// The buffer bound to a buffer target under the current vertex array
/// object.
pub open spec fn spec_bound_buffer(s: ContextState, target: u32) -> Result<
    Option<u32>,
    WebGLError,
> {
    if target == constants::ARRAY_BUFFER {
        Ok(s.bound_array_buffer)
    } else if target == constants::ELEMENT_ARRAY_BUFFER {
        Ok(s.vaos@[s.current_vao as int].element_array_buffer)
    } else {
        Err(WebGLError::InvalidEnum)
    }
}

/// Binding a deleted renderbuffer: the error is recorded, the binding is
/// cleared and the unbind command is sent, in one call.
pub open spec fn same_but_renderbuffer_unbound(
    pre: WebGLRenderingContext,
    post: WebGLRenderingContext,
    target: u32,
) -> bool {
    &&& crate::context::same_config(pre, post)
    &&& post.lost == pre.lost
    &&& post.last_error == crate::error::record(pre.last_error, WebGLError::InvalidOperation)
    &&& post.outbox@ == pre.outbox@ + seq![WebGLCommand::BindRenderbuffer(target, None)]
    &&& post.state == ContextState { bound_renderbuffer: None, ..pre.state }
}

/// A program object fresh from `CreateProgram`.
pub open spec fn is_fresh_program(p: ProgramState) -> bool {
    &&& !p.marked_for_deletion
    &&& !p.in_use
    &&& !p.linked
    &&& p.link_generation == 0
    &&& p.vertex_shader is None
    &&& p.fragment_shader is None
    &&& p.active_attribs@.len() == 0
    &&& p.active_uniforms@.len() == 0
}

/// A shader object fresh from `CreateShader`.
pub open spec fn is_fresh_shader(s: ShaderState, shader_type: u32) -> bool {
    &&& s.shader_type == shader_type
    &&& !s.marked_for_deletion
    &&& s.source@ == Seq::<char>::empty()
    &&& !s.compiled
    &&& !s.compile_ok
}

/// A vertex array object fresh from `create_vertex_array`.
pub open spec fn is_fresh_vao(v: VertexArrayState, limits: crate::limits::GLLimits) -> bool {
    &&& !v.deleted
    &&& !v.ever_bound
    &&& v.element_array_buffer is None
    &&& v.attribs@.len() == limits.max_vertex_attribs
    &&& forall|i: int| 0 <= i < v.attribs@.len() ==> v.attribs@[i]
        == crate::objects::VertexAttribData::spec_initial()
}

} // verus!
