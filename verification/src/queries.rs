//! Parameter and state queries.
//!
//! Queries answered from tracked state return their value directly;
//! queries only the backend can answer encode a query command, and the
//! host performs the round trip and pairs the reply.

use vstd::prelude::*;
use vstd::string::StringExecFns;

use crate::command::WebGLCommand;
use crate::constants;
use crate::context::{
    rejected, sent1, spec_cap_mask, spec_fb_status, unchanged, ContextState, WebGLRenderingContext,
};
use crate::error::WebGLError;
use crate::limits::GLLimits;
use crate::objects::WebGLAttachment;

verus! {

/// How a context-wide parameter query is answered: rejected, from the
/// tracked state, or by the backend.
#[derive(Debug, PartialEq)]
pub enum ParameterAnswer {
    /// The name is illegal under the enabled capability sets.
    Rejected,
    /// An object binding: the bound object's identifier, if any.
    Object(Option<u32>),
    Uint(u32),
    Boolean(bool),
    Size(usize),
    Text(String),
    /// An empty identifier list (no compressed formats are supported).
    UintList(Vec<u32>),
    /// Four IEEE-754 bit patterns.
    Bits4(u32, u32, u32, u32),
    /// The backend answers; the query command was encoded.
    Query,
}

/// The closed set of parameter names only the backend can answer.
pub open spec fn spec_is_backend_parameter(name: u32) -> bool {
    ||| name == constants::ACTIVE_TEXTURE
    ||| name == constants::LINE_WIDTH
    ||| name == constants::CULL_FACE_MODE
    ||| name == constants::FRONT_FACE
    ||| name == constants::DEPTH_RANGE
    ||| name == constants::DEPTH_WRITEMASK
    ||| name == constants::DEPTH_CLEAR_VALUE
    ||| name == constants::DEPTH_FUNC
    ||| name == constants::STENCIL_CLEAR_VALUE
    ||| name == constants::STENCIL_FUNC
    ||| name == constants::STENCIL_VALUE_MASK
    ||| name == constants::STENCIL_FAIL
    ||| name == constants::STENCIL_PASS_DEPTH_FAIL
    ||| name == constants::STENCIL_PASS_DEPTH_PASS
    ||| name == constants::STENCIL_REF
    ||| name == constants::STENCIL_WRITEMASK
    ||| name == constants::VIEWPORT
    ||| name == constants::SCISSOR_BOX
    ||| name == constants::COLOR_CLEAR_VALUE
    ||| name == constants::COLOR_WRITEMASK
    ||| name == constants::SUBPIXEL_BITS
    ||| name == constants::RED_BITS
    ||| name == constants::GREEN_BITS
    ||| name == constants::BLUE_BITS
    ||| name == constants::ALPHA_BITS
    ||| name == constants::DEPTH_BITS
    ||| name == constants::STENCIL_BITS
    ||| name == constants::MAX_VIEWPORT_DIMS
    ||| name == constants::SAMPLE_BUFFERS
    ||| name == constants::SAMPLES
    ||| name == constants::SAMPLE_COVERAGE_VALUE
    ||| name == constants::SAMPLE_COVERAGE_INVERT
    ||| name == constants::BLEND_COLOR
    ||| name == constants::BLEND_DST_RGB
    ||| name == constants::BLEND_SRC_RGB
    ||| name == constants::BLEND_DST_ALPHA
    ||| name == constants::BLEND_SRC_ALPHA
    ||| name == constants::BLEND_EQUATION_RGB
    ||| name == constants::BLEND_EQUATION_ALPHA
    ||| name == constants::POLYGON_OFFSET_FACTOR
    ||| name == constants::POLYGON_OFFSET_UNITS
    ||| name == constants::ALIASED_POINT_SIZE_RANGE
    ||| name == constants::ALIASED_LINE_WIDTH_RANGE
    ||| name == constants::GENERATE_MIPMAP_HINT
}

/// The implementation limit a parameter name reads, if any.
pub open spec fn spec_limit_parameter(limits: GLLimits, name: u32) -> Option<u32> {
    if name == constants::MAX_VERTEX_ATTRIBS {
        Some(limits.max_vertex_attribs)
    } else if name == constants::MAX_TEXTURE_SIZE {
        Some(limits.max_tex_size)
    } else if name == constants::MAX_CUBE_MAP_TEXTURE_SIZE {
        Some(limits.max_cube_map_tex_size)
    } else if name == constants::MAX_COMBINED_TEXTURE_IMAGE_UNITS {
        Some(limits.max_combined_texture_image_units)
    } else if name == constants::MAX_FRAGMENT_UNIFORM_VECTORS {
        Some(limits.max_fragment_uniform_vectors)
    } else if name == constants::MAX_RENDERBUFFER_SIZE {
        Some(limits.max_renderbuffer_size)
    } else if name == constants::MAX_TEXTURE_IMAGE_UNITS {
        Some(limits.max_texture_image_units)
    } else if name == constants::MAX_VARYING_VECTORS {
        Some(limits.max_varying_vectors)
    } else if name == constants::MAX_VERTEX_TEXTURE_IMAGE_UNITS {
        Some(limits.max_vertex_texture_image_units)
    } else if name == constants::MAX_VERTEX_UNIFORM_VECTORS {
        Some(limits.max_vertex_uniform_vectors)
    } else {
        None
    }
}

/// The exact answer a parameter name takes, over the tracked state.
pub open spec fn spec_parameter_answer(
    s: ContextState,
    limits: GLLimits,
    name: u32,
    r: ParameterAnswer,
) -> bool {
    if name == constants::ARRAY_BUFFER_BINDING {
        r == ParameterAnswer::Object(s.bound_array_buffer)
    } else if name == constants::CURRENT_PROGRAM {
        r == ParameterAnswer::Object(s.current_program)
    } else if name == constants::ELEMENT_ARRAY_BUFFER_BINDING {
        r == ParameterAnswer::Object(s.vaos@[s.current_vao as int].element_array_buffer)
    } else if name == constants::FRAMEBUFFER_BINDING {
        r == ParameterAnswer::Object(s.bound_framebuffer)
    } else if name == constants::RENDERBUFFER_BINDING {
        r == ParameterAnswer::Object(s.bound_renderbuffer)
    } else if name == constants::TEXTURE_BINDING_2D {
        r == ParameterAnswer::Object(s.tex_units.units@[s.tex_units.active_unit as int].tex_2d)
    } else if name == constants::TEXTURE_BINDING_CUBE_MAP {
        r == ParameterAnswer::Object(
            s.tex_units.units@[s.tex_units.active_unit as int].tex_cube_map,
        )
    } else if name == constants::VERTEX_ARRAY_BINDING_OES {
        if s.extensions.oes_vertex_array_object {
            r == ParameterAnswer::Object(
                if s.current_vao == 0 {
                    None
                } else {
                    Some(s.current_vao)
                },
            )
        } else {
            r == ParameterAnswer::Rejected
        }
    } else if name == constants::IMPLEMENTATION_COLOR_READ_FORMAT {
        r == ParameterAnswer::Uint(constants::RGBA)
    } else if name == constants::IMPLEMENTATION_COLOR_READ_TYPE {
        r == ParameterAnswer::Uint(constants::UNSIGNED_BYTE)
    } else if name == constants::COMPRESSED_TEXTURE_FORMATS {
        r matches ParameterAnswer::UintList(v) && v@ == Seq::<u32>::empty()
    } else if name == constants::VERSION {
        r matches ParameterAnswer::Text(t) && t@ == "WebGL 1.0"@
    } else if name == constants::RENDERER || name == constants::VENDOR {
        r matches ParameterAnswer::Text(t) && t@ == "WebGL core"@
    } else if name == constants::SHADING_LANGUAGE_VERSION {
        r matches ParameterAnswer::Text(t) && t@ == "WebGL GLSL ES 1.0"@
    } else if name == constants::UNPACK_FLIP_Y_WEBGL {
        r == ParameterAnswer::Boolean(s.unpack_flip_y)
    } else if name == constants::UNPACK_PREMULTIPLY_ALPHA_WEBGL {
        r == ParameterAnswer::Boolean(s.unpack_premultiply_alpha)
    } else if name == constants::UNPACK_COLORSPACE_CONVERSION_WEBGL {
        r == ParameterAnswer::Uint(
            if s.unpack_colorspace_conversion {
                constants::BROWSER_DEFAULT_WEBGL
            } else {
                constants::NONE
            },
        )
    } else if name == constants::PACK_ALIGNMENT {
        r == ParameterAnswer::Uint(s.pack_alignment)
    } else if name == constants::UNPACK_ALIGNMENT {
        r == ParameterAnswer::Uint(s.unpack_alignment)
    } else if spec_limit_parameter(limits, name) is Some {
        r == ParameterAnswer::Uint(spec_limit_parameter(limits, name)->0)
    } else if spec_cap_mask(name) is Some {
        r == ParameterAnswer::Boolean(s.capabilities & spec_cap_mask(name)->0 != 0)
    } else if spec_is_backend_parameter(name) {
        r == ParameterAnswer::Query
    } else {
        r == ParameterAnswer::Rejected
    }
}

impl WebGLRenderingContext {
    /// Reads the implementation limit a parameter name addresses.
    fn limit_parameter(&self, name: u32) -> (r: Option<u32>)
        ensures
            r == spec_limit_parameter(self.limits, name),
    {
        match name {
            constants::MAX_VERTEX_ATTRIBS => Some(self.limits.max_vertex_attribs),
            constants::MAX_TEXTURE_SIZE => Some(self.limits.max_tex_size),
            constants::MAX_CUBE_MAP_TEXTURE_SIZE => Some(self.limits.max_cube_map_tex_size),
            constants::MAX_COMBINED_TEXTURE_IMAGE_UNITS => Some(
                self.limits.max_combined_texture_image_units,
            ),
            constants::MAX_FRAGMENT_UNIFORM_VECTORS => Some(
                self.limits.max_fragment_uniform_vectors,
            ),
            constants::MAX_RENDERBUFFER_SIZE => Some(self.limits.max_renderbuffer_size),
            constants::MAX_TEXTURE_IMAGE_UNITS => Some(self.limits.max_texture_image_units),
            constants::MAX_VARYING_VECTORS => Some(self.limits.max_varying_vectors),
            constants::MAX_VERTEX_TEXTURE_IMAGE_UNITS => Some(
                self.limits.max_vertex_texture_image_units,
            ),
            constants::MAX_VERTEX_UNIFORM_VECTORS => Some(self.limits.max_vertex_uniform_vectors),
            _ => None,
        }
    }

    /// Whether the backend answers this parameter name.
    fn is_backend_parameter(&self, name: u32) -> (r: bool)
        ensures
            r == spec_is_backend_parameter(name),
    {
        match name {
            constants::ACTIVE_TEXTURE | constants::LINE_WIDTH | constants::CULL_FACE_MODE
                | constants::FRONT_FACE | constants::DEPTH_RANGE | constants::DEPTH_WRITEMASK
                | constants::DEPTH_CLEAR_VALUE | constants::DEPTH_FUNC
                | constants::STENCIL_CLEAR_VALUE | constants::STENCIL_FUNC
                | constants::STENCIL_VALUE_MASK | constants::STENCIL_FAIL
                | constants::STENCIL_PASS_DEPTH_FAIL | constants::STENCIL_PASS_DEPTH_PASS
                | constants::STENCIL_REF | constants::STENCIL_WRITEMASK | constants::VIEWPORT
                | constants::SCISSOR_BOX | constants::COLOR_CLEAR_VALUE
                | constants::COLOR_WRITEMASK | constants::SUBPIXEL_BITS | constants::RED_BITS
                | constants::GREEN_BITS | constants::BLUE_BITS | constants::ALPHA_BITS
                | constants::DEPTH_BITS | constants::STENCIL_BITS | constants::MAX_VIEWPORT_DIMS
                | constants::SAMPLE_BUFFERS | constants::SAMPLES
                | constants::SAMPLE_COVERAGE_VALUE | constants::SAMPLE_COVERAGE_INVERT
                | constants::BLEND_COLOR | constants::BLEND_DST_RGB | constants::BLEND_SRC_RGB
                | constants::BLEND_DST_ALPHA | constants::BLEND_SRC_ALPHA
                | constants::BLEND_EQUATION_RGB | constants::BLEND_EQUATION_ALPHA
                | constants::POLYGON_OFFSET_FACTOR | constants::POLYGON_OFFSET_UNITS
                | constants::ALIASED_POINT_SIZE_RANGE | constants::ALIASED_LINE_WIDTH_RANGE
                | constants::GENERATE_MIPMAP_HINT => true,
            _ => false,
        }
    }

    /// Answers a context-wide parameter query. Bindings, pixel-store
    /// settings, limits and capability bits are answered from the
    /// tracked state; the closed backend set encodes a query command; a
    /// name outside the legal set — including extension names whose
    /// capability set is disabled — records `InvalidEnum`.
    #[verifier::rlimit(100)]
    pub fn GetParameter(&mut self, parameter: u32) -> (r: ParameterAnswer)
        requires
            old(self).valid(),
        ensures
            final(self).valid(),
            if old(self).lost {
                rejected(*old(self), *final(self), WebGLError::ContextLost) && r
                    == ParameterAnswer::Rejected
            } else {
                spec_parameter_answer(old(self).state, old(self).limits, parameter, r) && (if r
                    == ParameterAnswer::Rejected {
                    rejected(*old(self), *final(self), WebGLError::InvalidEnum)
                } else if r == ParameterAnswer::Query {
                    sent1(*old(self), *final(self), WebGLCommand::GetParameter(parameter))
                } else {
                    unchanged(*old(self), *final(self))
                })
            },
    {
        if self.check_lost() {
            return ParameterAnswer::Rejected;
        }
        match parameter {
            constants::ARRAY_BUFFER_BINDING => {
                return ParameterAnswer::Object(self.state.bound_array_buffer);
            },
            constants::CURRENT_PROGRAM => {
                return ParameterAnswer::Object(self.state.current_program);
            },
            constants::ELEMENT_ARRAY_BUFFER_BINDING => {
                let cv = self.state.current_vao as usize;
                return ParameterAnswer::Object(self.state.vaos[cv].element_array_buffer);
            },
            constants::FRAMEBUFFER_BINDING => {
                return ParameterAnswer::Object(self.state.bound_framebuffer);
            },
            constants::RENDERBUFFER_BINDING => {
                return ParameterAnswer::Object(self.state.bound_renderbuffer);
            },
            constants::TEXTURE_BINDING_2D => {
                let u = self.state.tex_units.active_unit as usize;
                return ParameterAnswer::Object(self.state.tex_units.units[u].tex_2d);
            },
            constants::TEXTURE_BINDING_CUBE_MAP => {
                let u = self.state.tex_units.active_unit as usize;
                return ParameterAnswer::Object(self.state.tex_units.units[u].tex_cube_map);
            },
            constants::VERTEX_ARRAY_BINDING_OES => {
                if self.state.extensions.oes_vertex_array_object {
                    let cv = self.state.current_vao;
                    return ParameterAnswer::Object(
                        if cv == 0 {
                            None
                        } else {
                            Some(cv)
                        },
                    );
                }
                self.webgl_error(WebGLError::InvalidEnum);
                return ParameterAnswer::Rejected;
            },
            constants::IMPLEMENTATION_COLOR_READ_FORMAT => {
                return ParameterAnswer::Uint(constants::RGBA);
            },
            constants::IMPLEMENTATION_COLOR_READ_TYPE => {
                return ParameterAnswer::Uint(constants::UNSIGNED_BYTE);
            },
            constants::COMPRESSED_TEXTURE_FORMATS => {
                return ParameterAnswer::UintList(Vec::new());
            },
            constants::VERSION => {
                return ParameterAnswer::Text(String::from_str("WebGL 1.0"));
            },
            constants::RENDERER | constants::VENDOR => {
                return ParameterAnswer::Text(String::from_str("WebGL core"));
            },
            constants::SHADING_LANGUAGE_VERSION => {
                return ParameterAnswer::Text(String::from_str("WebGL GLSL ES 1.0"));
            },
            constants::UNPACK_FLIP_Y_WEBGL => {
                return ParameterAnswer::Boolean(self.state.unpack_flip_y);
            },
            constants::UNPACK_PREMULTIPLY_ALPHA_WEBGL => {
                return ParameterAnswer::Boolean(self.state.unpack_premultiply_alpha);
            },
            constants::UNPACK_COLORSPACE_CONVERSION_WEBGL => {
                return ParameterAnswer::Uint(
                    if self.state.unpack_colorspace_conversion {
                        constants::BROWSER_DEFAULT_WEBGL
                    } else {
                        constants::NONE
                    },
                );
            },
            constants::PACK_ALIGNMENT => {
                return ParameterAnswer::Uint(self.state.pack_alignment);
            },
            constants::UNPACK_ALIGNMENT => {
                return ParameterAnswer::Uint(self.state.unpack_alignment);
            },
            _ => (),
        }
        match self.limit_parameter(parameter) {
            Some(limit) => {
                return ParameterAnswer::Uint(limit);
            },
            None => (),
        }
        match crate::context::cap_mask(parameter) {
            Some(mask) => {
                return ParameterAnswer::Boolean(self.state.capabilities & mask != 0);
            },
            None => (),
        }
        if self.is_backend_parameter(parameter) {
            self.send_command(WebGLCommand::GetParameter(parameter));
            return ParameterAnswer::Query;
        }
        self.webgl_error(WebGLError::InvalidEnum);
        ParameterAnswer::Rejected
    }

    /// Answers a vertex attribute query from the current vertex array
    /// object. The zero slot's current value is tracked; other slots'
    /// current values are backend queries. An index beyond the attribute
    /// limit records `InvalidValue`; a name outside the legal set —
    /// including the instancing divisor while its capability set is
    /// disabled — records `InvalidEnum`.
    #[verifier::rlimit(100)]
    pub fn GetVertexAttrib(&mut self, index: u32, param: u32) -> (r: ParameterAnswer)
        requires
            old(self).valid(),
        ensures
            final(self).valid(),
            if old(self).lost {
                rejected(*old(self), *final(self), WebGLError::ContextLost) && r
                    == ParameterAnswer::Rejected
            } else if index >= old(self).limits.max_vertex_attribs {
                rejected(*old(self), *final(self), WebGLError::InvalidValue) && r
                    == ParameterAnswer::Rejected
            } else {
                let d =
                    old(self).state.vaos@[old(self).state.current_vao as int].attribs@[index as int];
                if param == constants::CURRENT_VERTEX_ATTRIB {
                    if index == 0 {
                        unchanged(*old(self), *final(self)) && r == ParameterAnswer::Bits4(
                            old(self).state.current_vertex_attrib_0.0,
                            old(self).state.current_vertex_attrib_0.1,
                            old(self).state.current_vertex_attrib_0.2,
                            old(self).state.current_vertex_attrib_0.3,
                        )
                    } else {
                        sent1(
                            *old(self),
                            *final(self),
                            WebGLCommand::GetCurrentVertexAttrib(index),
                        ) && r == ParameterAnswer::Query
                    }
                } else if param == constants::VERTEX_ATTRIB_ARRAY_ENABLED {
                    unchanged(*old(self), *final(self)) && r == ParameterAnswer::Boolean(
                        d.enabled_as_array,
                    )
                } else if param == constants::VERTEX_ATTRIB_ARRAY_SIZE {
                    unchanged(*old(self), *final(self)) && r == ParameterAnswer::Uint(d.size)
                } else if param == constants::VERTEX_ATTRIB_ARRAY_TYPE {
                    unchanged(*old(self), *final(self)) && r == ParameterAnswer::Uint(d.type_)
                } else if param == constants::VERTEX_ATTRIB_ARRAY_NORMALIZED {
                    unchanged(*old(self), *final(self)) && r == ParameterAnswer::Boolean(
                        d.normalized,
                    )
                } else if param == constants::VERTEX_ATTRIB_ARRAY_STRIDE {
                    unchanged(*old(self), *final(self)) && r == ParameterAnswer::Uint(d.stride)
                } else if param == constants::VERTEX_ATTRIB_ARRAY_BUFFER_BINDING {
                    unchanged(*old(self), *final(self)) && r == ParameterAnswer::Object(d.buffer)
                } else if param == constants::VERTEX_ATTRIB_ARRAY_DIVISOR_ANGLE && old(
                    self,
                ).state.extensions.angle_instanced_arrays {
                    unchanged(*old(self), *final(self)) && r == ParameterAnswer::Uint(d.divisor)
                } else {
                    rejected(*old(self), *final(self), WebGLError::InvalidEnum) && r
                        == ParameterAnswer::Rejected
                }
            },
    {
        if self.check_lost() {
            return ParameterAnswer::Rejected;
        }
        if index >= self.limits.max_vertex_attribs {
            self.webgl_error(WebGLError::InvalidValue);
            return ParameterAnswer::Rejected;
        }
        if param == constants::CURRENT_VERTEX_ATTRIB {
            if index == 0 {
                let v = self.state.current_vertex_attrib_0;
                return ParameterAnswer::Bits4(v.0, v.1, v.2, v.3);
            }
            self.send_command(WebGLCommand::GetCurrentVertexAttrib(index));
            return ParameterAnswer::Query;
        }
        let cv = self.state.current_vao as usize;
        let d = self.state.vaos[cv].attribs[index as usize];
        match param {
            constants::VERTEX_ATTRIB_ARRAY_ENABLED => ParameterAnswer::Boolean(d.enabled_as_array),
            constants::VERTEX_ATTRIB_ARRAY_SIZE => ParameterAnswer::Uint(d.size),
            constants::VERTEX_ATTRIB_ARRAY_TYPE => ParameterAnswer::Uint(d.type_),
            constants::VERTEX_ATTRIB_ARRAY_NORMALIZED => ParameterAnswer::Boolean(d.normalized),
            constants::VERTEX_ATTRIB_ARRAY_STRIDE => ParameterAnswer::Uint(d.stride),
            constants::VERTEX_ATTRIB_ARRAY_BUFFER_BINDING => ParameterAnswer::Object(d.buffer),
            constants::VERTEX_ATTRIB_ARRAY_DIVISOR_ANGLE => {
                if self.state.extensions.angle_instanced_arrays {
                    ParameterAnswer::Uint(d.divisor)
                } else {
                    self.webgl_error(WebGLError::InvalidEnum);
                    ParameterAnswer::Rejected
                }
            },
            _ => {
                self.webgl_error(WebGLError::InvalidEnum);
                ParameterAnswer::Rejected
            },
        }
    }

    /// Answers a buffer parameter query from the tracked buffer state.
    pub fn GetBufferParameter(&mut self, target: u32, parameter: u32) -> (r: ParameterAnswer)
        requires
            old(self).valid(),
        ensures
            final(self).valid(),
            if old(self).lost {
                rejected(*old(self), *final(self), WebGLError::ContextLost) && r
                    == ParameterAnswer::Rejected
            } else {
                match crate::bindings::spec_bound_buffer(old(self).state, target) {
                    Err(e) => rejected(*old(self), *final(self), e) && r
                        == ParameterAnswer::Rejected,
                    Ok(None) => rejected(*old(self), *final(self), WebGLError::InvalidOperation)
                        && r == ParameterAnswer::Rejected,
                    Ok(Some(id)) => {
                        if parameter == constants::BUFFER_SIZE {
                            unchanged(*old(self), *final(self)) && r == ParameterAnswer::Size(
                                old(self).state.buffers@[id - 1].capacity,
                            )
                        } else if parameter == constants::BUFFER_USAGE {
                            unchanged(*old(self), *final(self)) && r == ParameterAnswer::Uint(
                                old(self).state.buffers@[id - 1].usage,
                            )
                        } else {
                            rejected(*old(self), *final(self), WebGLError::InvalidEnum) && r
                                == ParameterAnswer::Rejected
                        }
                    },
                }
            },
    {
        if self.check_lost() {
            return ParameterAnswer::Rejected;
        }
        let id = match self.bound_buffer(target) {
            Err(e) => {
                self.webgl_error(e);
                return ParameterAnswer::Rejected;
            },
            Ok(None) => {
                self.webgl_error(WebGLError::InvalidOperation);
                return ParameterAnswer::Rejected;
            },
            Ok(Some(id)) => id,
        };
        let idx = (id - 1) as usize;
        match parameter {
            constants::BUFFER_SIZE => ParameterAnswer::Size(self.state.buffers[idx].capacity),
            constants::BUFFER_USAGE => ParameterAnswer::Uint(self.state.buffers[idx].usage),
            _ => {
                self.webgl_error(WebGLError::InvalidEnum);
                ParameterAnswer::Rejected
            },
        }
    }

    /// Answers a texture parameter query: the tracked filters directly,
    /// the wrap modes by a backend query. A target that is not a texture
    /// target or a name outside the legal set records `InvalidEnum`; an
    /// empty slot records `InvalidOperation`.
    pub fn GetTexParameter(&mut self, target: u32, pname: u32) -> (r: ParameterAnswer)
        requires
            old(self).valid(),
        ensures
            final(self).valid(),
            if old(self).lost {
                rejected(*old(self), *final(self), WebGLError::ContextLost) && r
                    == ParameterAnswer::Rejected
            } else if !crate::textures::spec_is_texture_target(target) {
                rejected(*old(self), *final(self), WebGLError::InvalidEnum) && r
                    == ParameterAnswer::Rejected
            } else {
                let slot = old(self).state.tex_units.units@[old(
                    self,
                ).state.tex_units.active_unit as int].spec_binding(target);
                match slot {
                    None => rejected(*old(self), *final(self), WebGLError::InvalidOperation) && r
                        == ParameterAnswer::Rejected,
                    Some(id) => {
                        if !old(self).state.extensions.spec_is_tex_parameter_name_enabled(pname) {
                            rejected(*old(self), *final(self), WebGLError::InvalidEnum) && r
                                == ParameterAnswer::Rejected
                        } else if pname == constants::TEXTURE_MAG_FILTER {
                            unchanged(*old(self), *final(self)) && r == ParameterAnswer::Uint(
                                old(self).state.textures@[id - 1].mag_filter,
                            )
                        } else if pname == constants::TEXTURE_MIN_FILTER {
                            unchanged(*old(self), *final(self)) && r == ParameterAnswer::Uint(
                                old(self).state.textures@[id - 1].min_filter,
                            )
                        } else {
                            sent1(
                                *old(self),
                                *final(self),
                                WebGLCommand::GetTexParameter(target, pname),
                            ) && r == ParameterAnswer::Query
                        }
                    },
                }
            },
    {
        if self.check_lost() {
            return ParameterAnswer::Rejected;
        }
        let slot = match self.state.tex_units.active_texture_slot(target) {
            Ok(slot) => slot,
            Err(e) => {
                self.webgl_error(e);
                return ParameterAnswer::Rejected;
            },
        };
        let id = match slot {
            Some(id) => id,
            None => {
                self.webgl_error(WebGLError::InvalidOperation);
                return ParameterAnswer::Rejected;
            },
        };
        if !self.state.extensions.is_get_tex_parameter_name_enabled(pname) {
            self.webgl_error(WebGLError::InvalidEnum);
            return ParameterAnswer::Rejected;
        }
        let idx = (id - 1) as usize;
        match pname {
            constants::TEXTURE_MAG_FILTER => ParameterAnswer::Uint(
                self.state.textures[idx].mag_filter,
            ),
            constants::TEXTURE_MIN_FILTER => ParameterAnswer::Uint(
                self.state.textures[idx].min_filter,
            ),
            _ => {
                self.send_command(WebGLCommand::GetTexParameter(target, pname));
                ParameterAnswer::Query
            },
        }
    }

    /// Answers a renderbuffer parameter query: the tracked internal
    /// format directly, everything else by a backend query.
    pub fn GetRenderbufferParameter(&mut self, target: u32, pname: u32) -> (r: ParameterAnswer)
        requires
            old(self).valid(),
        ensures
            final(self).valid(),
            if old(self).lost {
                rejected(*old(self), *final(self), WebGLError::ContextLost) && r
                    == ParameterAnswer::Rejected
            } else if target != constants::RENDERBUFFER || !spec_is_rb_parameter(pname) {
                rejected(*old(self), *final(self), WebGLError::InvalidEnum) && r
                    == ParameterAnswer::Rejected
            } else {
                match old(self).state.bound_renderbuffer {
                    None => rejected(*old(self), *final(self), WebGLError::InvalidOperation) && r
                        == ParameterAnswer::Rejected,
                    Some(id) => {
                        if pname == constants::RENDERBUFFER_INTERNAL_FORMAT {
                            unchanged(*old(self), *final(self)) && r == ParameterAnswer::Uint(
                                match old(self).state.renderbuffers@[id - 1].internal_format {
                                    Some(f) => f,
                                    None => constants::RGBA4,
                                },
                            )
                        } else {
                            sent1(
                                *old(self),
                                *final(self),
                                WebGLCommand::GetRenderbufferParameter(target, pname),
                            ) && r == ParameterAnswer::Query
                        }
                    },
                }
            },
    {
        if self.check_lost() {
            return ParameterAnswer::Rejected;
        }
        let pname_ok = match pname {
            constants::RENDERBUFFER_WIDTH | constants::RENDERBUFFER_HEIGHT
                | constants::RENDERBUFFER_INTERNAL_FORMAT | constants::RENDERBUFFER_RED_SIZE
                | constants::RENDERBUFFER_GREEN_SIZE | constants::RENDERBUFFER_BLUE_SIZE
                | constants::RENDERBUFFER_ALPHA_SIZE | constants::RENDERBUFFER_DEPTH_SIZE
                | constants::RENDERBUFFER_STENCIL_SIZE => true,
            _ => false,
        };
        if target != constants::RENDERBUFFER || !pname_ok {
            self.webgl_error(WebGLError::InvalidEnum);
            return ParameterAnswer::Rejected;
        }
        let id = match self.state.bound_renderbuffer {
            Some(id) => id,
            None => {
                self.webgl_error(WebGLError::InvalidOperation);
                return ParameterAnswer::Rejected;
            },
        };
        if pname == constants::RENDERBUFFER_INTERNAL_FORMAT {
            let idx = (id - 1) as usize;
            return ParameterAnswer::Uint(
                match self.state.renderbuffers[idx].internal_format {
                    Some(f) => f,
                    None => constants::RGBA4,
                },
            );
        }
        self.send_command(WebGLCommand::GetRenderbufferParameter(target, pname));
        ParameterAnswer::Query
    }

    /// Issues the precision-format query after validating both enums;
    /// reports whether the query was encoded.
    pub fn GetShaderPrecisionFormat(&mut self, shader_type: u32, precision_type: u32) -> (r: bool)
        requires
            old(self).valid(),
        ensures
            final(self).valid(),
            if old(self).lost {
                rejected(*old(self), *final(self), WebGLError::ContextLost) && !r
            } else if shader_type != constants::FRAGMENT_SHADER && shader_type
                != constants::VERTEX_SHADER {
                rejected(*old(self), *final(self), WebGLError::InvalidEnum) && !r
            } else if !spec_is_precision_type(precision_type) {
                rejected(*old(self), *final(self), WebGLError::InvalidEnum) && !r
            } else {
                sent1(
                    *old(self),
                    *final(self),
                    WebGLCommand::GetShaderPrecisionFormat(shader_type, precision_type),
                ) && r
            },
    {
        if self.check_lost() {
            return false;
        }
        match shader_type {
            constants::FRAGMENT_SHADER | constants::VERTEX_SHADER => (),
            _ => {
                self.webgl_error(WebGLError::InvalidEnum);
                return false;
            },
        }
        match precision_type {
            constants::LOW_FLOAT | constants::MEDIUM_FLOAT | constants::HIGH_FLOAT
                | constants::LOW_INT | constants::MEDIUM_INT | constants::HIGH_INT => (),
            _ => {
                self.webgl_error(WebGLError::InvalidEnum);
                return false;
            },
        }
        self.send_command(
            WebGLCommand::GetShaderPrecisionFormat(shader_type, precision_type),
        );
        true
    }

    /// Reports the bound framebuffer's completeness status, or
    /// `FRAMEBUFFER_COMPLETE` for the default framebuffer. A target
    /// other than FRAMEBUFFER records `InvalidEnum` and reports zero.
    pub fn CheckFramebufferStatus(&mut self, target: u32) -> (r: u32)
        requires
            old(self).valid(),
        ensures
            final(self).valid(),
            if old(self).lost {
                rejected(*old(self), *final(self), WebGLError::ContextLost) && r == 0
            } else if target != constants::FRAMEBUFFER {
                rejected(*old(self), *final(self), WebGLError::InvalidEnum) && r == 0
            } else {
                unchanged(*old(self), *final(self)) && r == (match old(
                    self,
                ).state.bound_framebuffer {
                    None => constants::FRAMEBUFFER_COMPLETE,
                    Some(id) => spec_fb_status(
                        old(self).state,
                        old(self).state.framebuffers@[id - 1],
                    ),
                })
            },
    {
        if self.check_lost() {
            return 0;
        }
        if target != constants::FRAMEBUFFER {
            self.webgl_error(WebGLError::InvalidEnum);
            return 0;
        }
        match self.state.bound_framebuffer {
            None => constants::FRAMEBUFFER_COMPLETE,
            Some(id) => {
                let f = &self.state.framebuffers[(id - 1) as usize];
                self.framebuffer_status(f)
            },
        }
    }
}

impl WebGLRenderingContext {
    /// Validates a pixel read-back and encodes the read command for the
    /// source rectangle clipped to the framebuffer. `dest` describes the
    /// caller's destination buffer as its byte length and element width;
    /// the host copies the backend's reply into it row by row. A clipped
    /// or zero-sized rectangle reads nothing and is not an error.
    #[verifier::rlimit(100)]
    pub fn ReadPixels(
        &mut self,
        x: i32,
        y: i32,
        width: i32,
        height: i32,
        format: u32,
        pixel_type: u32,
        dest: Option<(usize, u32)>,
    ) -> (r: Result<(), WebGLError>)
        requires
            old(self).valid(),
        ensures
            final(self).valid(),
            if old(self).lost {
                rejected(*old(self), *final(self), WebGLError::ContextLost) && r
                    == Result::<(), WebGLError>::Err(WebGLError::ContextLost)
            } else {
                match spec_read_pixels_verdict(
                    *old(self),
                    x,
                    y,
                    width,
                    height,
                    format,
                    pixel_type,
                    dest,
                ) {
                    Err(e) => rejected(*old(self), *final(self), e) && r
                        == Result::<(), WebGLError>::Err(e),
                    Ok(None) => unchanged(*old(self), *final(self)) && r is Ok,
                    Ok(Some(rect)) => sent1(
                        *old(self),
                        *final(self),
                        WebGLCommand::ReadPixels {
                            x: rect.0,
                            y: rect.1,
                            width: rect.2,
                            height: rect.3,
                            format,
                            pixel_type,
                        },
                    ) && r is Ok,
                }
            },
    {
        if self.check_lost() {
            return Err(WebGLError::ContextLost);
        }
        let (dest_len, dest_elem) = match dest {
            Some(d) => d,
            None => {
                self.webgl_error(WebGLError::InvalidValue);
                return Err(WebGLError::InvalidValue);
            },
        };
        if width < 0 || height < 0 {
            self.webgl_error(WebGLError::InvalidValue);
            return Err(WebGLError::InvalidValue);
        }
        if format != constants::RGBA || pixel_type != constants::UNSIGNED_BYTE {
            self.webgl_error(WebGLError::InvalidOperation);
            return Err(WebGLError::InvalidOperation);
        }
        if dest_elem != 1 {
            self.webgl_error(WebGLError::InvalidOperation);
            return Err(WebGLError::InvalidOperation);
        }
        match self.validate_framebuffer() {
            Err(e) => {
                self.webgl_error(e);
                return Err(e);
            },
            Ok(()) => (),
        }
        if width == 0 || height == 0 {
            return Ok(());
        }
        let row_len: i64 = (width as i64) * 4;
        if row_len > i32::MAX as i64 {
            self.webgl_error(WebGLError::InvalidOperation);
            return Err(WebGLError::InvalidOperation);
        }
        let pack = self.state.pack_alignment as i64;
        let rem = row_len % pack;
        let padding: i64 = if rem == 0 {
            0
        } else {
            pack - rem
        };
        let dest_stride: i64 = row_len + padding;
        proof {
            assert(dest_stride * ((height - 1) as i64) <= 0x8000_0008i64 * 0x7FFF_FFFF)
                by (nonlinear_arith)
                requires
                    0 <= dest_stride <= 0x8000_0008i64,
                    0 <= (height - 1) as i64 <= 0x7FFF_FFFF,
            ;
            assert(dest_stride * ((height - 1) as i64) >= 0) by (nonlinear_arith)
                requires
                    dest_stride >= 0,
                    (height - 1) as i64 >= 0,
            ;
        }
        let full_rows: i64 = dest_stride * ((height - 1) as i64);
        if full_rows > i32::MAX as i64 {
            self.webgl_error(WebGLError::InvalidOperation);
            return Err(WebGLError::InvalidOperation);
        }
        let required: i64 = full_rows + row_len;
        if required > i32::MAX as i64 {
            self.webgl_error(WebGLError::InvalidOperation);
            return Err(WebGLError::InvalidOperation);
        }
        if (dest_len as u64) < (required as u64) {
            self.webgl_error(WebGLError::InvalidOperation);
            return Err(WebGLError::InvalidOperation);
        }
        let (fbw, fbh) = match self.state.bound_framebuffer {
            None => (self.state.size.0, self.state.size.1),
            Some(id) => {
                let f = &self.state.framebuffers[(id - 1) as usize];
                match self.fb_first_size(f) {
                    Some(sz) => sz,
                    None => {
                        // unreachable: the completeness check passed above
                        return Ok(());
                    },
                }
            },
        };
        let x0: i64 = if x < 0 {
            0
        } else {
            x as i64
        };
        let y0: i64 = if y < 0 {
            0
        } else {
            y as i64
        };
        let x1: i64 = if (x as i64) + (width as i64) > fbw as i64 {
            fbw as i64
        } else {
            (x as i64) + (width as i64)
        };
        let y1: i64 = if (y as i64) + (height as i64) > fbh as i64 {
            fbh as i64
        } else {
            (y as i64) + (height as i64)
        };
        if x1 <= x0 || y1 <= y0 {
            return Ok(());
        }
        self.send_command(
            WebGLCommand::ReadPixels {
                x: x0 as u32,
                y: y0 as u32,
                width: (x1 - x0) as u32,
                height: (y1 - y0) as u32,
                format,
                pixel_type,
            },
        );
        Ok(())
    }

    /// Answers a framebuffer attachment query: the attached object's
    /// name from the tracked attachment, everything else by a backend
    /// query. Querying with no framebuffer object bound records
    /// `InvalidOperation`; a target, attachment point, name, or name the
    /// attached kind does not take records `InvalidEnum`.
    #[verifier::rlimit(100)]
    pub fn GetFramebufferAttachmentParameter(
        &mut self,
        target: u32,
        attachment: u32,
        pname: u32,
    ) -> (r: ParameterAnswer)
        requires
            old(self).valid(),
        ensures
            final(self).valid(),
            if old(self).lost {
                rejected(*old(self), *final(self), WebGLError::ContextLost) && r
                    == ParameterAnswer::Rejected
            } else {
                match old(self).state.bound_framebuffer {
                    None => rejected(*old(self), *final(self), WebGLError::InvalidOperation) && r
                        == ParameterAnswer::Rejected,
                    Some(id) => {
                        let f = old(self).state.framebuffers@[id - 1];
                        if !spec_attachment_query_legal(f, target, attachment, pname) {
                            rejected(*old(self), *final(self), WebGLError::InvalidEnum) && r
                                == ParameterAnswer::Rejected
                        } else if pname == constants::FRAMEBUFFER_ATTACHMENT_OBJECT_NAME {
                            unchanged(*old(self), *final(self)) && r == ParameterAnswer::Object(
                                match spec_fb_attachment(f, attachment) {
                                    Some(WebGLAttachment::Renderbuffer(rb)) => Some(rb),
                                    Some(WebGLAttachment::Texture { id: tid, .. }) => Some(tid),
                                    None => None,
                                },
                            )
                        } else {
                            sent1(
                                *old(self),
                                *final(self),
                                WebGLCommand::GetFramebufferAttachmentParameter(
                                    target,
                                    attachment,
                                    pname,
                                ),
                            ) && r == ParameterAnswer::Query
                        }
                    },
                }
            },
    {
        if self.check_lost() {
            return ParameterAnswer::Rejected;
        }
        let id = match self.state.bound_framebuffer {
            Some(id) => id,
            None => {
                self.webgl_error(WebGLError::InvalidOperation);
                return ParameterAnswer::Rejected;
            },
        };
        let idx = (id - 1) as usize;
        let att = fb_attachment_slot(&self.state.framebuffers[idx], attachment);
        let target_matches = target == constants::FRAMEBUFFER;
        let attachment_matches = match attachment {
            constants::COLOR_ATTACHMENT0 | constants::DEPTH_STENCIL_ATTACHMENT
                | constants::DEPTH_ATTACHMENT | constants::STENCIL_ATTACHMENT => true,
            _ => false,
        };
        let pname_matches = match pname {
            constants::FRAMEBUFFER_ATTACHMENT_OBJECT_NAME
                | constants::FRAMEBUFFER_ATTACHMENT_OBJECT_TYPE
                | constants::FRAMEBUFFER_ATTACHMENT_TEXTURE_CUBE_MAP_FACE
                | constants::FRAMEBUFFER_ATTACHMENT_TEXTURE_LEVEL => true,
            _ => false,
        };
        let bound_matches = match att {
            Some(WebGLAttachment::Renderbuffer(_)) => match pname {
                constants::FRAMEBUFFER_ATTACHMENT_OBJECT_TYPE
                    | constants::FRAMEBUFFER_ATTACHMENT_OBJECT_NAME => true,
                _ => false,
            },
            Some(WebGLAttachment::Texture { .. }) => pname_matches,
            None => pname == constants::FRAMEBUFFER_ATTACHMENT_OBJECT_TYPE,
        };
        if !target_matches || !attachment_matches || !pname_matches || !bound_matches {
            self.webgl_error(WebGLError::InvalidEnum);
            return ParameterAnswer::Rejected;
        }
        if pname == constants::FRAMEBUFFER_ATTACHMENT_OBJECT_NAME {
            return ParameterAnswer::Object(
                match att {
                    Some(WebGLAttachment::Renderbuffer(rb)) => Some(rb),
                    Some(WebGLAttachment::Texture { id: tid, .. }) => Some(tid),
                    None => None,
                },
            );
        }
        self.send_command(
            WebGLCommand::GetFramebufferAttachmentParameter(target, attachment, pname),
        );
        ParameterAnswer::Query
    }
}

/// The attachment point a GL constant addresses.
pub open spec fn spec_fb_attachment(
    f: crate::objects::FramebufferState,
    attachment: u32,
) -> Option<WebGLAttachment> {
    if attachment == constants::COLOR_ATTACHMENT0 {
        f.color
    } else if attachment == constants::DEPTH_ATTACHMENT {
        f.depth
    } else if attachment == constants::STENCIL_ATTACHMENT {
        f.stencil
    } else if attachment == constants::DEPTH_STENCIL_ATTACHMENT {
        f.depthstencil
    } else {
        None
    }
}

/// The attachment point a GL constant addresses.
fn fb_attachment_slot(f: &crate::objects::FramebufferState, attachment: u32) -> (r: Option<
    WebGLAttachment,
>)
    ensures
        r == spec_fb_attachment(*f, attachment),
{
    match attachment {
        constants::COLOR_ATTACHMENT0 => f.color,
        constants::DEPTH_ATTACHMENT => f.depth,
        constants::STENCIL_ATTACHMENT => f.stencil,
        constants::DEPTH_STENCIL_ATTACHMENT => f.depthstencil,
        _ => None,
    }
}

/// Whether the enum triple of an attachment query is legal: the target,
/// the attachment point, the name, and — per the attached kind — the
/// names that kind takes.
pub open spec fn spec_attachment_query_legal(
    f: crate::objects::FramebufferState,
    target: u32,
    attachment: u32,
    pname: u32,
) -> bool {
    let pname_matches = pname == constants::FRAMEBUFFER_ATTACHMENT_OBJECT_NAME || pname
        == constants::FRAMEBUFFER_ATTACHMENT_OBJECT_TYPE || pname
        == constants::FRAMEBUFFER_ATTACHMENT_TEXTURE_CUBE_MAP_FACE || pname
        == constants::FRAMEBUFFER_ATTACHMENT_TEXTURE_LEVEL;
    &&& target == constants::FRAMEBUFFER
    &&& (attachment == constants::COLOR_ATTACHMENT0 || attachment
        == constants::DEPTH_STENCIL_ATTACHMENT || attachment == constants::DEPTH_ATTACHMENT
        || attachment == constants::STENCIL_ATTACHMENT)
    &&& pname_matches
    &&& (match spec_fb_attachment(f, attachment) {
        Some(WebGLAttachment::Renderbuffer(_)) => pname
            == constants::FRAMEBUFFER_ATTACHMENT_OBJECT_TYPE || pname
            == constants::FRAMEBUFFER_ATTACHMENT_OBJECT_NAME,
        Some(WebGLAttachment::Texture { .. }) => pname_matches,
        None => pname == constants::FRAMEBUFFER_ATTACHMENT_OBJECT_TYPE,
    })
}

/// The verdict of a pixel read: the first validation failure, or the
/// rectangle to read, clipped to the framebuffer — `None` where nothing
/// is read.
pub open spec fn spec_read_pixels_verdict(
    pre: WebGLRenderingContext,
    x: i32,
    y: i32,
    width: i32,
    height: i32,
    format: u32,
    pixel_type: u32,
    dest: Option<(usize, u32)>,
) -> Result<Option<(u32, u32, u32, u32)>, WebGLError> {
    let s = pre.state;
    match dest {
        None => Err(WebGLError::InvalidValue),
        Some(d) => {
            if width < 0 || height < 0 {
                Err(WebGLError::InvalidValue)
            } else if format != constants::RGBA || pixel_type != constants::UNSIGNED_BYTE {
                Err(WebGLError::InvalidOperation)
            } else if d.1 != 1 {
                Err(WebGLError::InvalidOperation)
            } else {
                match crate::context::spec_validate_framebuffer(s) {
                    Err(e) => Err(e),
                    Ok(()) => {
                        if width == 0 || height == 0 {
                            Ok(None)
                        } else {
                            let row = width * 4;
                            if row > i32::MAX {
                                Err(WebGLError::InvalidOperation)
                            } else {
                                let rem = row % (s.pack_alignment as int);
                                let padding: int = if rem == 0 {
                                    0
                                } else {
                                    s.pack_alignment - rem
                                };
                                let stride = row + padding;
                                let full_rows = stride * (height - 1);
                                if full_rows > i32::MAX {
                                    Err(WebGLError::InvalidOperation)
                                } else if full_rows + row > i32::MAX {
                                    Err(WebGLError::InvalidOperation)
                                } else if d.0 < full_rows + row {
                                    Err(WebGLError::InvalidOperation)
                                } else {
                                    let fbsize = (match s.bound_framebuffer {
                                        None => (s.size.0, s.size.1),
                                        Some(id) => crate::context::spec_fb_first_size(
                                            s,
                                            s.framebuffers@[id - 1],
                                        )->0,
                                    });
                                    let x0: int = if x < 0 {
                                        0
                                    } else {
                                        x as int
                                    };
                                    let y0: int = if y < 0 {
                                        0
                                    } else {
                                        y as int
                                    };
                                    let x1: int = if x + width > fbsize.0 {
                                        fbsize.0 as int
                                    } else {
                                        x + width
                                    };
                                    let y1: int = if y + height > fbsize.1 {
                                        fbsize.1 as int
                                    } else {
                                        y + height
                                    };
                                    if x1 <= x0 || y1 <= y0 {
                                        Ok(None)
                                    } else {
                                        Ok(
                                            Some(
                                                (
                                                    x0 as u32,
                                                    y0 as u32,
                                                    (x1 - x0) as u32,
                                                    (y1 - y0) as u32,
                                                ),
                                            ),
                                        )
                                    }
                                }
                            }
                        }
                    },
                }
            }
        },
    }
}

/// The closed set of renderbuffer parameter names.
pub open spec fn spec_is_rb_parameter(pname: u32) -> bool {
    ||| pname == constants::RENDERBUFFER_WIDTH
    ||| pname == constants::RENDERBUFFER_HEIGHT
    ||| pname == constants::RENDERBUFFER_INTERNAL_FORMAT
    ||| pname == constants::RENDERBUFFER_RED_SIZE
    ||| pname == constants::RENDERBUFFER_GREEN_SIZE
    ||| pname == constants::RENDERBUFFER_BLUE_SIZE
    ||| pname == constants::RENDERBUFFER_ALPHA_SIZE
    ||| pname == constants::RENDERBUFFER_DEPTH_SIZE
    ||| pname == constants::RENDERBUFFER_STENCIL_SIZE
}

/// The closed set of precision type names.
pub open spec fn spec_is_precision_type(t: u32) -> bool {
    ||| t == constants::LOW_FLOAT
    ||| t == constants::MEDIUM_FLOAT
    ||| t == constants::HIGH_FLOAT
    ||| t == constants::LOW_INT
    ||| t == constants::MEDIUM_INT
    ||| t == constants::HIGH_INT
}

} // verus!
