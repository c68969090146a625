//! Renderbuffer storage, framebuffer attachments, texture parameters and
//! the capability-set listing.

use vstd::prelude::*;
use vstd::string::StringExecFns;

use crate::command::WebGLCommand;
use crate::constants;
use crate::context::{
    applied, rejected, sent1, unchanged, ContextState, WebGLRenderingContext,
};
use crate::error::WebGLError;
use crate::extensions::WebGLExtensionName;
use crate::objects::{
    FramebufferState, RenderbufferState, TextureState, WebGLAttachment, WebGLRenderbuffer,
    WebGLTexture,
};

verus! {

/// The closed set of renderbuffer storage formats.
pub open spec fn spec_is_rb_format(f: u32) -> bool {
    ||| f == constants::RGBA4
    ||| f == constants::RGB565
    ||| f == constants::RGB5_A1
    ||| f == constants::DEPTH_COMPONENT16
    ||| f == constants::STENCIL_INDEX8
    ||| f == constants::DEPTH_STENCIL
}

/// Whether a GL constant names one of the four attachment points.
pub open spec fn spec_is_attachment_point(attachment: u32) -> bool {
    ||| attachment == constants::COLOR_ATTACHMENT0
    ||| attachment == constants::DEPTH_ATTACHMENT
    ||| attachment == constants::STENCIL_ATTACHMENT
    ||| attachment == constants::DEPTH_STENCIL_ATTACHMENT
}

/// The framebuffer record with one attachment point replaced.
pub open spec fn spec_fb_set_attachment(
    f: FramebufferState,
    attachment: u32,
    a: Option<WebGLAttachment>,
) -> FramebufferState {
    if attachment == constants::COLOR_ATTACHMENT0 {
        FramebufferState { color: a, ..f }
    } else if attachment == constants::DEPTH_ATTACHMENT {
        FramebufferState { depth: a, ..f }
    } else if attachment == constants::STENCIL_ATTACHMENT {
        FramebufferState { stencil: a, ..f }
    } else {
        FramebufferState { depthstencil: a, ..f }
    }
}

impl WebGLRenderingContext {
    /// Allocates the bound renderbuffer's storage. A target other than
    /// RENDERBUFFER or a format outside the closed set records
    /// `InvalidEnum`; extents outside the renderbuffer limit record
    /// `InvalidValue`; no bound renderbuffer records `InvalidOperation`.
    #[verifier::rlimit(50)]
    pub fn RenderbufferStorage(&mut self, target: u32, internal_format: u32, width: i32, height: i32)
        requires
            old(self).valid(),
        ensures
            final(self).valid(),
            if old(self).lost {
                rejected(*old(self), *final(self), WebGLError::ContextLost)
            } else if target != constants::RENDERBUFFER {
                rejected(*old(self), *final(self), WebGLError::InvalidEnum)
            } else if width < 0 || width as u32 > old(self).limits.max_renderbuffer_size || height
                < 0 || height as u32 > old(self).limits.max_renderbuffer_size {
                rejected(*old(self), *final(self), WebGLError::InvalidValue)
            } else {
                match old(self).state.bound_renderbuffer {
                    None => rejected(*old(self), *final(self), WebGLError::InvalidOperation),
                    Some(id) => {
                        if !spec_is_rb_format(internal_format) {
                            rejected(*old(self), *final(self), WebGLError::InvalidEnum)
                        } else {
                            applied(
                                *old(self),
                                *final(self),
                                ContextState {
                                    renderbuffers: final(self).state.renderbuffers,
                                    ..old(self).state
                                },
                                seq![
                                    WebGLCommand::RenderbufferStorage(
                                        target,
                                        internal_format,
                                        width,
                                        height,
                                    ),
                                ],
                            ) && final(self).state.renderbuffers@ == old(
                                self,
                            ).state.renderbuffers@.update(
                                id - 1,
                                RenderbufferState {
                                    internal_format: Some(internal_format),
                                    width: width as u32,
                                    height: height as u32,
                                    ..old(self).state.renderbuffers@[id - 1]
                                },
                            )
                        }
                    },
                }
            },
    {
        if self.check_lost() {
            return ;
        }
        if target != constants::RENDERBUFFER {
            return self.webgl_error(WebGLError::InvalidEnum);
        }
        let max = self.limits.max_renderbuffer_size;
        if width < 0 || width as u32 > max || height < 0 || height as u32 > max {
            return self.webgl_error(WebGLError::InvalidValue);
        }
        let id = match self.state.bound_renderbuffer {
            Some(id) => id,
            None => return self.webgl_error(WebGLError::InvalidOperation),
        };
        let format_ok = match internal_format {
            constants::RGBA4 | constants::RGB565 | constants::RGB5_A1
                | constants::DEPTH_COMPONENT16 | constants::STENCIL_INDEX8
                | constants::DEPTH_STENCIL => true,
            _ => false,
        };
        if !format_ok {
            return self.webgl_error(WebGLError::InvalidEnum);
        }
        let idx = (id - 1) as usize;
        self.state.renderbuffers[idx].internal_format = Some(internal_format);
        self.state.renderbuffers[idx].width = width as u32;
        self.state.renderbuffers[idx].height = height as u32;
        self.send_command(
            WebGLCommand::RenderbufferStorage(target, internal_format, width, height),
        );
        proof {
            assert(self.state.renderbuffers@ =~= old(self).state.renderbuffers@.update(
                id - 1,
                RenderbufferState {
                    internal_format: Some(internal_format),
                    width: width as u32,
                    height: height as u32,
                    ..old(self).state.renderbuffers@[id - 1]
                },
            ));
        }
    }

    /// Attaches a renderbuffer to an attachment point of the bound
    /// framebuffer, or clears the point.
    #[verifier::rlimit(50)]
    pub fn FramebufferRenderbuffer(
        &mut self,
        target: u32,
        attachment: u32,
        renderbuffertarget: u32,
        rb: Option<&WebGLRenderbuffer>,
    )
        requires
            old(self).valid(),
        ensures
            final(self).valid(),
            if old(self).lost {
                rejected(*old(self), *final(self), WebGLError::ContextLost)
            } else if rb matches Some(h) && !old(self).owns_renderbuffer(*h) {
                rejected(*old(self), *final(self), WebGLError::InvalidOperation)
            } else if target != constants::FRAMEBUFFER || renderbuffertarget
                != constants::RENDERBUFFER {
                rejected(*old(self), *final(self), WebGLError::InvalidEnum)
            } else {
                match old(self).state.bound_framebuffer {
                    None => rejected(*old(self), *final(self), WebGLError::InvalidOperation),
                    Some(fbid) => {
                        if !spec_is_attachment_point(attachment) {
                            rejected(*old(self), *final(self), WebGLError::InvalidEnum)
                        } else {
                            let a = match rb {
                                Some(h) => Some(WebGLAttachment::Renderbuffer(h.id)),
                                None => None,
                            };
                            applied(
                                *old(self),
                                *final(self),
                                ContextState {
                                    framebuffers: final(self).state.framebuffers,
                                    ..old(self).state
                                },
                                seq![
                                    WebGLCommand::FramebufferRenderbuffer(
                                        target,
                                        attachment,
                                        renderbuffertarget,
                                        match rb {
                                            Some(h) => Some(h.id),
                                            None => None,
                                        },
                                    ),
                                ],
                            ) && final(self).state.framebuffers@ == old(
                                self,
                            ).state.framebuffers@.update(
                                fbid - 1,
                                spec_fb_set_attachment(
                                    old(self).state.framebuffers@[fbid - 1],
                                    attachment,
                                    a,
                                ),
                            )
                        }
                    },
                }
            },
    {
        if self.check_lost() {
            return ;
        }
        if let Some(h) = rb {
            if !self.validate_renderbuffer_ownership(h) {
                return self.webgl_error(WebGLError::InvalidOperation);
            }
        }
        if target != constants::FRAMEBUFFER || renderbuffertarget != constants::RENDERBUFFER {
            return self.webgl_error(WebGLError::InvalidEnum);
        }
        let fbid = match self.state.bound_framebuffer {
            Some(fbid) => fbid,
            None => return self.webgl_error(WebGLError::InvalidOperation),
        };
        let a: Option<WebGLAttachment> = match rb {
            Some(h) => Some(WebGLAttachment::Renderbuffer(h.id)),
            None => None,
        };
        let rbid: Option<u32> = match rb {
            Some(h) => Some(h.id),
            None => None,
        };
        let idx = (fbid - 1) as usize;
        match attachment {
            constants::COLOR_ATTACHMENT0 => self.state.framebuffers[idx].color = a,
            constants::DEPTH_ATTACHMENT => self.state.framebuffers[idx].depth = a,
            constants::STENCIL_ATTACHMENT => self.state.framebuffers[idx].stencil = a,
            constants::DEPTH_STENCIL_ATTACHMENT => self.state.framebuffers[idx].depthstencil = a,
            _ => return self.webgl_error(WebGLError::InvalidEnum),
        }
        self.send_command(
            WebGLCommand::FramebufferRenderbuffer(target, attachment, renderbuffertarget, rbid),
        );
        proof {
            assert(self.state.framebuffers@ =~= old(self).state.framebuffers@.update(
                fbid - 1,
                spec_fb_set_attachment(old(self).state.framebuffers@[fbid - 1], attachment, a),
            ));
        }
    }

    /// Attaches one texture image level to an attachment point of the
    /// bound framebuffer, or clears the point. Only level zero may be
    /// attached.
    #[verifier::rlimit(50)]
    pub fn FramebufferTexture2D(
        &mut self,
        target: u32,
        attachment: u32,
        textarget: u32,
        texture: Option<&WebGLTexture>,
        level: i32,
    )
        requires
            old(self).valid(),
        ensures
            final(self).valid(),
            if old(self).lost {
                rejected(*old(self), *final(self), WebGLError::ContextLost)
            } else if texture matches Some(h) && !old(self).owns_texture(*h) {
                rejected(*old(self), *final(self), WebGLError::InvalidOperation)
            } else if target != constants::FRAMEBUFFER {
                rejected(*old(self), *final(self), WebGLError::InvalidEnum)
            } else {
                match old(self).state.bound_framebuffer {
                    None => rejected(*old(self), *final(self), WebGLError::InvalidOperation),
                    Some(fbid) => {
                        if !spec_is_attachment_point(attachment)
                            || crate::textures::spec_tex_image_target(textarget) is None {
                            rejected(*old(self), *final(self), WebGLError::InvalidEnum)
                        } else if level != 0 {
                            rejected(*old(self), *final(self), WebGLError::InvalidValue)
                        } else {
                            let a = match texture {
                                Some(h) => Some(
                                    WebGLAttachment::Texture { id: h.id, face: textarget, level },
                                ),
                                None => None,
                            };
                            applied(
                                *old(self),
                                *final(self),
                                ContextState {
                                    framebuffers: final(self).state.framebuffers,
                                    ..old(self).state
                                },
                                seq![
                                    WebGLCommand::FramebufferTexture2D(
                                        target,
                                        attachment,
                                        textarget,
                                        match texture {
                                            Some(h) => Some(h.id),
                                            None => None,
                                        },
                                        level,
                                    ),
                                ],
                            ) && final(self).state.framebuffers@ == old(
                                self,
                            ).state.framebuffers@.update(
                                fbid - 1,
                                spec_fb_set_attachment(
                                    old(self).state.framebuffers@[fbid - 1],
                                    attachment,
                                    a,
                                ),
                            )
                        }
                    },
                }
            },
    {
        if self.check_lost() {
            return ;
        }
        if let Some(h) = texture {
            if !self.validate_texture_ownership(h) {
                return self.webgl_error(WebGLError::InvalidOperation);
            }
        }
        if target != constants::FRAMEBUFFER {
            return self.webgl_error(WebGLError::InvalidEnum);
        }
        let fbid = match self.state.bound_framebuffer {
            Some(fbid) => fbid,
            None => return self.webgl_error(WebGLError::InvalidOperation),
        };
        let point_ok = match attachment {
            constants::COLOR_ATTACHMENT0 | constants::DEPTH_ATTACHMENT
                | constants::STENCIL_ATTACHMENT | constants::DEPTH_STENCIL_ATTACHMENT => true,
            _ => false,
        };
        if !point_ok || crate::textures::TexImageTarget::from_gl_constant(textarget).is_none() {
            return self.webgl_error(WebGLError::InvalidEnum);
        }
        if level != 0 {
            return self.webgl_error(WebGLError::InvalidValue);
        }
        let a: Option<WebGLAttachment> = match texture {
            Some(h) => Some(WebGLAttachment::Texture { id: h.id, face: textarget, level }),
            None => None,
        };
        let tid: Option<u32> = match texture {
            Some(h) => Some(h.id),
            None => None,
        };
        let idx = (fbid - 1) as usize;
        match attachment {
            constants::COLOR_ATTACHMENT0 => self.state.framebuffers[idx].color = a,
            constants::DEPTH_ATTACHMENT => self.state.framebuffers[idx].depth = a,
            constants::STENCIL_ATTACHMENT => self.state.framebuffers[idx].stencil = a,
            _ => self.state.framebuffers[idx].depthstencil = a,
        }
        self.send_command(
            WebGLCommand::FramebufferTexture2D(target, attachment, textarget, tid, level),
        );
        proof {
            assert(self.state.framebuffers@ =~= old(self).state.framebuffers@.update(
                fbid - 1,
                spec_fb_set_attachment(old(self).state.framebuffers@[fbid - 1], attachment, a),
            ));
        }
    }

    /// Sets an integer texture parameter on the bound texture of the
    /// target: the two filters are tracked, the two wrap modes are
    /// forwarded. Values outside each parameter's closed set record
    /// `InvalidEnum`.
    #[verifier::rlimit(50)]
    pub fn TexParameteri(&mut self, target: u32, name: u32, value: i32)
        requires
            old(self).valid(),
        ensures
            final(self).valid(),
            if old(self).lost {
                rejected(*old(self), *final(self), WebGLError::ContextLost)
            } else if !crate::textures::spec_is_texture_target(target) {
                rejected(*old(self), *final(self), WebGLError::InvalidEnum)
            } else {
                let slot = old(self).state.tex_units.units@[old(
                    self,
                ).state.tex_units.active_unit as int].spec_binding(target);
                match slot {
                    None => rejected(*old(self), *final(self), WebGLError::InvalidOperation),
                    Some(id) => {
                        if !old(self).state.extensions.spec_is_tex_parameter_name_enabled(name) {
                            rejected(*old(self), *final(self), WebGLError::InvalidEnum)
                        } else if !spec_tex_parameter_value_legal(name, value) {
                            rejected(*old(self), *final(self), WebGLError::InvalidEnum)
                        } else {
                            applied(
                                *old(self),
                                *final(self),
                                ContextState {
                                    textures: final(self).state.textures,
                                    ..old(self).state
                                },
                                seq![WebGLCommand::TexParameteri(target, name, value)],
                            ) && final(self).state.textures@ == old(self).state.textures@.update(
                                id - 1,
                                spec_tex_set_parameter(
                                    old(self).state.textures@[id - 1],
                                    name,
                                    value as u32,
                                ),
                            )
                        }
                    },
                }
            },
    {
        if self.check_lost() {
            return ;
        }
        let slot = match self.state.tex_units.active_texture_slot(target) {
            Ok(slot) => slot,
            Err(e) => return self.webgl_error(e),
        };
        let id = match slot {
            Some(id) => id,
            None => return self.webgl_error(WebGLError::InvalidOperation),
        };
        if !self.state.extensions.is_get_tex_parameter_name_enabled(name) {
            return self.webgl_error(WebGLError::InvalidEnum);
        }
        let value_ok = match name {
            constants::TEXTURE_MAG_FILTER => value as u32 == constants::NEAREST || value as u32
                == constants::LINEAR,
            constants::TEXTURE_MIN_FILTER => match value as u32 {
                constants::NEAREST | constants::LINEAR | constants::NEAREST_MIPMAP_NEAREST
                    | constants::LINEAR_MIPMAP_NEAREST | constants::NEAREST_MIPMAP_LINEAR
                    | constants::LINEAR_MIPMAP_LINEAR => true,
                _ => false,
            },
            _ => match value as u32 {
                constants::REPEAT | constants::CLAMP_TO_EDGE | constants::MIRRORED_REPEAT => true,
                _ => false,
            },
        };
        if !value_ok {
            return self.webgl_error(WebGLError::InvalidEnum);
        }
        let idx = (id - 1) as usize;
        if name == constants::TEXTURE_MAG_FILTER {
            self.state.textures[idx].mag_filter = value as u32;
        } else if name == constants::TEXTURE_MIN_FILTER {
            self.state.textures[idx].min_filter = value as u32;
        }
        self.send_command(WebGLCommand::TexParameteri(target, name, value));
        proof {
            assert(self.state.textures@ =~= old(self).state.textures@.update(
                id - 1,
                spec_tex_set_parameter(old(self).state.textures@[id - 1], name, value as u32),
            ));
        }
    }

    /// Asks the backend to build the mipmap chain of the bound texture;
    /// the base image level must have been uploaded.
    pub fn GenerateMipmap(&mut self, target: u32)
        requires
            old(self).valid(),
        ensures
            final(self).valid(),
            if old(self).lost {
                rejected(*old(self), *final(self), WebGLError::ContextLost)
            } else if !crate::textures::spec_is_texture_target(target) {
                rejected(*old(self), *final(self), WebGLError::InvalidEnum)
            } else {
                let slot = old(self).state.tex_units.units@[old(
                    self,
                ).state.tex_units.active_unit as int].spec_binding(target);
                match slot {
                    None => rejected(*old(self), *final(self), WebGLError::InvalidOperation),
                    Some(id) => {
                        let base = if target == constants::TEXTURE_2D {
                            constants::TEXTURE_2D
                        } else {
                            constants::TEXTURE_CUBE_MAP_POSITIVE_X
                        };
                        if !crate::objects::spec_has_image(
                            old(self).state.textures@[id - 1].images@,
                            base,
                            0,
                        ) {
                            rejected(*old(self), *final(self), WebGLError::InvalidOperation)
                        } else {
                            sent1(*old(self), *final(self), WebGLCommand::GenerateMipmap(target))
                        }
                    },
                }
            },
    {
        if self.check_lost() {
            return ;
        }
        let slot = match self.state.tex_units.active_texture_slot(target) {
            Ok(slot) => slot,
            Err(e) => return self.webgl_error(e),
        };
        let id = match slot {
            Some(id) => id,
            None => return self.webgl_error(WebGLError::InvalidOperation),
        };
        let base = if target == constants::TEXTURE_2D {
            constants::TEXTURE_2D
        } else {
            constants::TEXTURE_CUBE_MAP_POSITIVE_X
        };
        let idx = (id - 1) as usize;
        if crate::objects::find_image(&self.state.textures[idx].images, base, 0).is_none() {
            return self.webgl_error(WebGLError::InvalidOperation);
        }
        self.send_command(WebGLCommand::GenerateMipmap(target));
    }

    /// Issues the context-attributes query; the host blocks on the
    /// backend's reply.
    pub fn GetContextAttributes(&mut self)
        requires
            old(self).valid(),
        ensures
            final(self).valid(),
            if old(self).lost {
                rejected(*old(self), *final(self), WebGLError::ContextLost)
            } else {
                sent1(*old(self), *final(self), WebGLCommand::GetContextAttributes)
            },
    {
        if self.check_lost() {
            return ;
        }
        self.send_command(WebGLCommand::GetContextAttributes);
    }

    /// The names of the optional capability sets this core knows.
    pub fn GetSupportedExtensions(&self) -> (r: Vec<String>)
        ensures
            r@.len() == 9,
            r@[0]@ == "ANGLE_instanced_arrays"@,
            r@[1]@ == "EXT_blend_minmax"@,
            r@[2]@ == "OES_element_index_uint"@,
            r@[3]@ == "OES_standard_derivatives"@,
            r@[4]@ == "OES_texture_float"@,
            r@[5]@ == "OES_texture_float_linear"@,
            r@[6]@ == "OES_texture_half_float"@,
            r@[7]@ == "OES_texture_half_float_linear"@,
            r@[8]@ == "OES_vertex_array_object"@,
    {
        let mut names: Vec<String> = Vec::new();
        names.push(String::from_str("ANGLE_instanced_arrays"));
        names.push(String::from_str("EXT_blend_minmax"));
        names.push(String::from_str("OES_element_index_uint"));
        names.push(String::from_str("OES_standard_derivatives"));
        names.push(String::from_str("OES_texture_float"));
        names.push(String::from_str("OES_texture_float_linear"));
        names.push(String::from_str("OES_texture_half_float"));
        names.push(String::from_str("OES_texture_half_float_linear"));
        names.push(String::from_str("OES_vertex_array_object"));
        names
    }

    /// Enables the named capability set and reports whether the name is
    /// known. An unknown name reports false without an error.
    pub fn GetExtension(&mut self, name: WebGLExtensionName)
        requires
            old(self).valid(),
        ensures
            final(self).valid(),
            if old(self).lost {
                rejected(*old(self), *final(self), WebGLError::ContextLost)
            } else {
                applied(
                    *old(self),
                    *final(self),
                    ContextState {
                        extensions: old(self).state.extensions.spec_enabled(name),
                        ..old(self).state
                    },
                    Seq::empty(),
                )
            },
    {
        if self.check_lost() {
            return ;
        }
        self.state.extensions.enable(name);
    }
}

/// The texture record after one integer parameter set: the filters are
/// tracked, the wrap modes live on the backend.
pub open spec fn spec_tex_set_parameter(t: TextureState, name: u32, value: u32) -> TextureState {
    if name == constants::TEXTURE_MAG_FILTER {
        TextureState { mag_filter: value, ..t }
    } else if name == constants::TEXTURE_MIN_FILTER {
        TextureState { min_filter: value, ..t }
    } else {
        t
    }
}

/// The values an integer texture parameter accepts.
pub open spec fn spec_tex_parameter_value_legal(name: u32, value: i32) -> bool {
    if name == constants::TEXTURE_MAG_FILTER {
        value as u32 == constants::NEAREST || value as u32 == constants::LINEAR
    } else if name == constants::TEXTURE_MIN_FILTER {
        ||| value as u32 == constants::NEAREST
        ||| value as u32 == constants::LINEAR
        ||| value as u32 == constants::NEAREST_MIPMAP_NEAREST
        ||| value as u32 == constants::LINEAR_MIPMAP_NEAREST
        ||| value as u32 == constants::NEAREST_MIPMAP_LINEAR
        ||| value as u32 == constants::LINEAR_MIPMAP_LINEAR
    } else {
        ||| value as u32 == constants::REPEAT
        ||| value as u32 == constants::CLAMP_TO_EDGE
        ||| value as u32 == constants::MIRRORED_REPEAT
    }
}

} // verus!
