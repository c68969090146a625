//! Entry points that set context-wide state: capabilities, blending,
//! stencil, depth, pixel storage, clears and the resize resynchronization.

use vstd::prelude::*;

use crate::command::WebGLCommand;
use crate::constants;
use crate::context::{
    rejected, sent, sent1, spec_blend_conflict, spec_cap_mask, spec_is_comparison_func,
    spec_is_face, spec_is_stencil_action, spec_valid_blend_mode, spec_validate_framebuffer,
    unchanged, applied, cap_mask, ContextState, WebGLRenderingContext,
};
use crate::error::WebGLError;
use crate::floatbits::{spec_gt_bits, spec_is_nan_bits, spec_le_zero_bits};

verus! {

impl WebGLRenderingContext {
    /// Toggles a capability; an enum outside the legal set records
    /// `InvalidEnum`, re-enabling an enabled capability is a no-op.
    pub fn Enable(&mut self, cap: u32)
        requires
            old(self).valid(),
        ensures
            final(self).valid(),
            if old(self).lost {
                rejected(*old(self), *final(self), WebGLError::ContextLost)
            } else {
                match spec_cap_mask(cap) {
                    None => rejected(*old(self), *final(self), WebGLError::InvalidEnum),
                    Some(mask) => {
                        if old(self).state.capabilities & mask != 0 {
                            unchanged(*old(self), *final(self))
                        } else {
                            applied(
                                *old(self),
                                *final(self),
                                ContextState {
                                    capabilities: old(self).state.capabilities | mask,
                                    ..old(self).state
                                },
                                seq![WebGLCommand::Enable(cap)],
                            )
                        }
                    },
                }
            },
    {
        if self.check_lost() {
            return ;
        }
        match cap_mask(cap) {
            None => self.webgl_error(WebGLError::InvalidEnum),
            Some(mask) => {
                if self.state.capabilities & mask == 0 {
                    self.state.capabilities = self.state.capabilities | mask;
                    self.send_command(WebGLCommand::Enable(cap));
                }
            },
        }
    }

    /// Toggles a capability off; an enum outside the legal set records
    /// `InvalidEnum`, disabling a disabled capability is a no-op.
    pub fn Disable(&mut self, cap: u32)
        requires
            old(self).valid(),
        ensures
            final(self).valid(),
            if old(self).lost {
                rejected(*old(self), *final(self), WebGLError::ContextLost)
            } else {
                match spec_cap_mask(cap) {
                    None => rejected(*old(self), *final(self), WebGLError::InvalidEnum),
                    Some(mask) => {
                        if old(self).state.capabilities & mask == 0 {
                            unchanged(*old(self), *final(self))
                        } else {
                            applied(
                                *old(self),
                                *final(self),
                                ContextState {
                                    capabilities: old(self).state.capabilities & !mask,
                                    ..old(self).state
                                },
                                seq![WebGLCommand::Disable(cap)],
                            )
                        }
                    },
                }
            },
    {
        if self.check_lost() {
            return ;
        }
        match cap_mask(cap) {
            None => self.webgl_error(WebGLError::InvalidEnum),
            Some(mask) => {
                if self.state.capabilities & mask != 0 {
                    self.state.capabilities = self.state.capabilities & !mask;
                    self.send_command(WebGLCommand::Disable(cap));
                }
            },
        }
    }

    /// Reads a capability's state; an enum outside the legal set records
    /// `InvalidEnum` and reports false.
    pub fn IsEnabled(&mut self, cap: u32) -> (r: bool)
        requires
            old(self).valid(),
        ensures
            final(self).valid(),
            if old(self).lost {
                rejected(*old(self), *final(self), WebGLError::ContextLost) && !r
            } else {
                match spec_cap_mask(cap) {
                    None => rejected(*old(self), *final(self), WebGLError::InvalidEnum) && !r,
                    Some(mask) => unchanged(*old(self), *final(self)) && r == (old(
                        self,
                    ).state.capabilities & mask != 0),
                }
            },
    {
        if self.check_lost() {
            return false;
        }
        match cap_mask(cap) {
            None => {
                self.webgl_error(WebGLError::InvalidEnum);
                false
            },
            Some(mask) => self.state.capabilities & mask != 0,
        }
    }

    /// Sets the constant blend color; the components are IEEE-754 bit
    /// patterns.
    pub fn BlendColor(&mut self, r: u32, g: u32, b: u32, a: u32)
        requires
            old(self).valid(),
        ensures
            final(self).valid(),
            if old(self).lost {
                rejected(*old(self), *final(self), WebGLError::ContextLost)
            } else {
                sent1(*old(self), *final(self), WebGLCommand::BlendColor(r, g, b, a))
            },
    {
        if self.check_lost() {
            return ;
        }
        self.send_command(WebGLCommand::BlendColor(r, g, b, a));
    }

    /// Sets the blend equation for both channels.
    pub fn BlendEquation(&mut self, mode: u32)
        requires
            old(self).valid(),
        ensures
            final(self).valid(),
            if old(self).lost {
                rejected(*old(self), *final(self), WebGLError::ContextLost)
            } else if spec_valid_blend_mode(old(self).state.extensions, mode) {
                sent1(*old(self), *final(self), WebGLCommand::BlendEquation(mode))
            } else {
                rejected(*old(self), *final(self), WebGLError::InvalidEnum)
            },
    {
        if self.check_lost() {
            return ;
        }
        if self.validate_blend_mode(mode) {
            self.send_command(WebGLCommand::BlendEquation(mode));
        } else {
            self.webgl_error(WebGLError::InvalidEnum);
        }
    }

    /// Sets the blend equations of the color and alpha channels.
    pub fn BlendEquationSeparate(&mut self, mode_rgb: u32, mode_alpha: u32)
        requires
            old(self).valid(),
        ensures
            final(self).valid(),
            if old(self).lost {
                rejected(*old(self), *final(self), WebGLError::ContextLost)
            } else if !spec_valid_blend_mode(old(self).state.extensions, mode_rgb)
                || !spec_valid_blend_mode(old(self).state.extensions, mode_alpha) {
                rejected(*old(self), *final(self), WebGLError::InvalidEnum)
            } else {
                sent1(
                    *old(self),
                    *final(self),
                    WebGLCommand::BlendEquationSeparate(mode_rgb, mode_alpha),
                )
            },
    {
        if self.check_lost() {
            return ;
        }
        if !self.validate_blend_mode(mode_rgb) || !self.validate_blend_mode(mode_alpha) {
            return self.webgl_error(WebGLError::InvalidEnum);
        }
        self.send_command(WebGLCommand::BlendEquationSeparate(mode_rgb, mode_alpha));
    }

    /// Whether the blend equation enum is legal under the enabled
    /// capability sets.
    fn validate_blend_mode(&self, mode: u32) -> (r: bool)
        ensures
            r == spec_valid_blend_mode(self.state.extensions, mode),
    {
        match mode {
            constants::FUNC_ADD | constants::FUNC_SUBTRACT | constants::FUNC_REVERSE_SUBTRACT => {
                true
            },
            constants::MIN_EXT | constants::MAX_EXT => {
                self.state.extensions.is_blend_minmax_enabled()
            },
            _ => false,
        }
    }

    /// Sets the blend factors; selecting constant color on one factor and
    /// constant alpha on the other is rejected with `InvalidOperation`.
    pub fn BlendFunc(&mut self, src_factor: u32, dest_factor: u32)
        requires
            old(self).valid(),
        ensures
            final(self).valid(),
            if old(self).lost {
                rejected(*old(self), *final(self), WebGLError::ContextLost)
            } else if spec_blend_conflict(src_factor, dest_factor) {
                rejected(*old(self), *final(self), WebGLError::InvalidOperation)
            } else {
                sent1(*old(self), *final(self), WebGLCommand::BlendFunc(src_factor, dest_factor))
            },
    {
        if self.check_lost() {
            return ;
        }
        if has_conflict(src_factor, dest_factor) {
            return self.webgl_error(WebGLError::InvalidOperation);
        }
        self.send_command(WebGLCommand::BlendFunc(src_factor, dest_factor));
    }

    /// Sets the blend factors per channel; the constant-color mutual
    /// exclusion is checked on the color channel's pair.
    pub fn BlendFuncSeparate(&mut self, src_rgb: u32, dest_rgb: u32, src_alpha: u32, dest_alpha: u32)
        requires
            old(self).valid(),
        ensures
            final(self).valid(),
            if old(self).lost {
                rejected(*old(self), *final(self), WebGLError::ContextLost)
            } else if spec_blend_conflict(src_rgb, dest_rgb) {
                rejected(*old(self), *final(self), WebGLError::InvalidOperation)
            } else {
                sent1(
                    *old(self),
                    *final(self),
                    WebGLCommand::BlendFuncSeparate(src_rgb, dest_rgb, src_alpha, dest_alpha),
                )
            },
    {
        if self.check_lost() {
            return ;
        }
        if has_conflict(src_rgb, dest_rgb) {
            return self.webgl_error(WebGLError::InvalidOperation);
        }
        self.send_command(
            WebGLCommand::BlendFuncSeparate(src_rgb, dest_rgb, src_alpha, dest_alpha),
        );
    }

    /// Selects which faces are culled.
    pub fn CullFace(&mut self, mode: u32)
        requires
            old(self).valid(),
        ensures
            final(self).valid(),
            if old(self).lost {
                rejected(*old(self), *final(self), WebGLError::ContextLost)
            } else if spec_is_face(mode) {
                sent1(*old(self), *final(self), WebGLCommand::CullFace(mode))
            } else {
                rejected(*old(self), *final(self), WebGLError::InvalidEnum)
            },
    {
        if self.check_lost() {
            return ;
        }
        match mode {
            constants::FRONT | constants::BACK | constants::FRONT_AND_BACK => {
                self.send_command(WebGLCommand::CullFace(mode))
            },
            _ => self.webgl_error(WebGLError::InvalidEnum),
        }
    }

    /// Selects the winding that counts as front-facing.
    pub fn FrontFace(&mut self, mode: u32)
        requires
            old(self).valid(),
        ensures
            final(self).valid(),
            if old(self).lost {
                rejected(*old(self), *final(self), WebGLError::ContextLost)
            } else if mode == constants::CW || mode == constants::CCW {
                sent1(*old(self), *final(self), WebGLCommand::FrontFace(mode))
            } else {
                rejected(*old(self), *final(self), WebGLError::InvalidEnum)
            },
    {
        if self.check_lost() {
            return ;
        }
        match mode {
            constants::CW | constants::CCW => self.send_command(WebGLCommand::FrontFace(mode)),
            _ => self.webgl_error(WebGLError::InvalidEnum),
        }
    }

    /// Sets the depth comparison function.
    pub fn DepthFunc(&mut self, func: u32)
        requires
            old(self).valid(),
        ensures
            final(self).valid(),
            if old(self).lost {
                rejected(*old(self), *final(self), WebGLError::ContextLost)
            } else if spec_is_comparison_func(func) {
                sent1(*old(self), *final(self), WebGLCommand::DepthFunc(func))
            } else {
                rejected(*old(self), *final(self), WebGLError::InvalidEnum)
            },
    {
        if self.check_lost() {
            return ;
        }
        if is_comparison_func(func) {
            self.send_command(WebGLCommand::DepthFunc(func));
        } else {
            self.webgl_error(WebGLError::InvalidEnum);
        }
    }

    /// Toggles depth writes.
    pub fn DepthMask(&mut self, flag: bool)
        requires
            old(self).valid(),
        ensures
            final(self).valid(),
            if old(self).lost {
                rejected(*old(self), *final(self), WebGLError::ContextLost)
            } else {
                sent1(*old(self), *final(self), WebGLCommand::DepthMask(flag))
            },
    {
        if self.check_lost() {
            return ;
        }
        self.send_command(WebGLCommand::DepthMask(flag));
    }

    /// Sets the depth range; `near` above `far` (as encoded values) is
    /// rejected with `InvalidOperation`.
    pub fn DepthRange(&mut self, near: u32, far: u32)
        requires
            old(self).valid(),
        ensures
            final(self).valid(),
            if old(self).lost {
                rejected(*old(self), *final(self), WebGLError::ContextLost)
            } else if spec_gt_bits(near, far) {
                rejected(*old(self), *final(self), WebGLError::InvalidOperation)
            } else {
                sent1(*old(self), *final(self), WebGLCommand::DepthRange(near, far))
            },
    {
        if self.check_lost() {
            return ;
        }
        if crate::floatbits::gt_bits(near, far) {
            return self.webgl_error(WebGLError::InvalidOperation);
        }
        self.send_command(WebGLCommand::DepthRange(near, far));
    }

    /// Sets the line width; zero, negative or NaN widths are rejected with
    /// `InvalidValue`.
    pub fn LineWidth(&mut self, width: u32)
        requires
            old(self).valid(),
        ensures
            final(self).valid(),
            if old(self).lost {
                rejected(*old(self), *final(self), WebGLError::ContextLost)
            } else if spec_is_nan_bits(width) || spec_le_zero_bits(width) {
                rejected(*old(self), *final(self), WebGLError::InvalidValue)
            } else {
                sent1(*old(self), *final(self), WebGLCommand::LineWidth(width))
            },
    {
        if self.check_lost() {
            return ;
        }
        if crate::floatbits::is_nan_bits(width) || crate::floatbits::le_zero_bits(width) {
            return self.webgl_error(WebGLError::InvalidValue);
        }
        self.send_command(WebGLCommand::LineWidth(width));
    }

    /// Sets the multisample coverage parameters.
    pub fn SampleCoverage(&mut self, value: u32, invert: bool)
        requires
            old(self).valid(),
        ensures
            final(self).valid(),
            if old(self).lost {
                rejected(*old(self), *final(self), WebGLError::ContextLost)
            } else {
                sent1(*old(self), *final(self), WebGLCommand::SampleCoverage(value, invert))
            },
    {
        if self.check_lost() {
            return ;
        }
        self.send_command(WebGLCommand::SampleCoverage(value, invert));
    }

    /// Sets the polygon offset parameters.
    pub fn PolygonOffset(&mut self, factor: u32, units: u32)
        requires
            old(self).valid(),
        ensures
            final(self).valid(),
            if old(self).lost {
                rejected(*old(self), *final(self), WebGLError::ContextLost)
            } else {
                sent1(*old(self), *final(self), WebGLCommand::PolygonOffset(factor, units))
            },
    {
        if self.check_lost() {
            return ;
        }
        self.send_command(WebGLCommand::PolygonOffset(factor, units));
    }

    /// Toggles the color channels written by draws.
    pub fn ColorMask(&mut self, r: bool, g: bool, b: bool, a: bool)
        requires
            old(self).valid(),
        ensures
            final(self).valid(),
            if old(self).lost {
                rejected(*old(self), *final(self), WebGLError::ContextLost)
            } else {
                sent1(*old(self), *final(self), WebGLCommand::ColorMask(r, g, b, a))
            },
    {
        if self.check_lost() {
            return ;
        }
        self.send_command(WebGLCommand::ColorMask(r, g, b, a));
    }

    /// Sets the stencil comparison for both faces.
    pub fn StencilFunc(&mut self, func: u32, ref_: i32, mask: u32)
        requires
            old(self).valid(),
        ensures
            final(self).valid(),
            if old(self).lost {
                rejected(*old(self), *final(self), WebGLError::ContextLost)
            } else if spec_is_comparison_func(func) {
                sent1(*old(self), *final(self), WebGLCommand::StencilFunc(func, ref_, mask))
            } else {
                rejected(*old(self), *final(self), WebGLError::InvalidEnum)
            },
    {
        if self.check_lost() {
            return ;
        }
        if is_comparison_func(func) {
            self.send_command(WebGLCommand::StencilFunc(func, ref_, mask));
        } else {
            self.webgl_error(WebGLError::InvalidEnum);
        }
    }

    /// Sets the stencil comparison for one face set.
    pub fn StencilFuncSeparate(&mut self, face: u32, func: u32, ref_: i32, mask: u32)
        requires
            old(self).valid(),
        ensures
            final(self).valid(),
            if old(self).lost {
                rejected(*old(self), *final(self), WebGLError::ContextLost)
            } else if !spec_is_face(face) || !spec_is_comparison_func(func) {
                rejected(*old(self), *final(self), WebGLError::InvalidEnum)
            } else {
                sent1(
                    *old(self),
                    *final(self),
                    WebGLCommand::StencilFuncSeparate(face, func, ref_, mask),
                )
            },
    {
        if self.check_lost() {
            return ;
        }
        if !is_face(face) || !is_comparison_func(func) {
            return self.webgl_error(WebGLError::InvalidEnum);
        }
        self.send_command(WebGLCommand::StencilFuncSeparate(face, func, ref_, mask));
    }

    /// Sets the stencil write mask for both faces.
    pub fn StencilMask(&mut self, mask: u32)
        requires
            old(self).valid(),
        ensures
            final(self).valid(),
            if old(self).lost {
                rejected(*old(self), *final(self), WebGLError::ContextLost)
            } else {
                sent1(*old(self), *final(self), WebGLCommand::StencilMask(mask))
            },
    {
        if self.check_lost() {
            return ;
        }
        self.send_command(WebGLCommand::StencilMask(mask));
    }

    /// Sets the stencil write mask for one face set.
    pub fn StencilMaskSeparate(&mut self, face: u32, mask: u32)
        requires
            old(self).valid(),
        ensures
            final(self).valid(),
            if old(self).lost {
                rejected(*old(self), *final(self), WebGLError::ContextLost)
            } else if spec_is_face(face) {
                sent1(*old(self), *final(self), WebGLCommand::StencilMaskSeparate(face, mask))
            } else {
                rejected(*old(self), *final(self), WebGLError::InvalidEnum)
            },
    {
        if self.check_lost() {
            return ;
        }
        if is_face(face) {
            self.send_command(WebGLCommand::StencilMaskSeparate(face, mask));
        } else {
            self.webgl_error(WebGLError::InvalidEnum);
        }
    }

    /// Sets the stencil actions for both faces.
    pub fn StencilOp(&mut self, fail: u32, zfail: u32, zpass: u32)
        requires
            old(self).valid(),
        ensures
            final(self).valid(),
            if old(self).lost {
                rejected(*old(self), *final(self), WebGLError::ContextLost)
            } else if spec_is_stencil_action(fail) && spec_is_stencil_action(zfail)
                && spec_is_stencil_action(zpass) {
                sent1(*old(self), *final(self), WebGLCommand::StencilOp(fail, zfail, zpass))
            } else {
                rejected(*old(self), *final(self), WebGLError::InvalidEnum)
            },
    {
        if self.check_lost() {
            return ;
        }
        if is_stencil_action(fail) && is_stencil_action(zfail) && is_stencil_action(zpass) {
            self.send_command(WebGLCommand::StencilOp(fail, zfail, zpass));
        } else {
            self.webgl_error(WebGLError::InvalidEnum);
        }
    }

    /// Sets the stencil actions for one face set.
    pub fn StencilOpSeparate(&mut self, face: u32, fail: u32, zfail: u32, zpass: u32)
        requires
            old(self).valid(),
        ensures
            final(self).valid(),
            if old(self).lost {
                rejected(*old(self), *final(self), WebGLError::ContextLost)
            } else if !spec_is_face(face) {
                rejected(*old(self), *final(self), WebGLError::InvalidEnum)
            } else if spec_is_stencil_action(fail) && spec_is_stencil_action(zfail)
                && spec_is_stencil_action(zpass) {
                sent1(
                    *old(self),
                    *final(self),
                    WebGLCommand::StencilOpSeparate(face, fail, zfail, zpass),
                )
            } else {
                rejected(*old(self), *final(self), WebGLError::InvalidEnum)
            },
    {
        if self.check_lost() {
            return ;
        }
        if !is_face(face) {
            return self.webgl_error(WebGLError::InvalidEnum);
        }
        if is_stencil_action(fail) && is_stencil_action(zfail) && is_stencil_action(zpass) {
            self.send_command(WebGLCommand::StencilOpSeparate(face, fail, zfail, zpass));
        } else {
            self.webgl_error(WebGLError::InvalidEnum);
        }
    }

    /// Sets an implementation hint.
    pub fn Hint(&mut self, target: u32, mode: u32)
        requires
            old(self).valid(),
        ensures
            final(self).valid(),
            if old(self).lost {
                rejected(*old(self), *final(self), WebGLError::ContextLost)
            } else if target != constants::GENERATE_MIPMAP_HINT && !old(
                self,
            ).state.extensions.spec_is_hint_target_enabled(target) {
                rejected(*old(self), *final(self), WebGLError::InvalidEnum)
            } else if mode == constants::FASTEST || mode == constants::NICEST || mode
                == constants::DONT_CARE {
                sent1(*old(self), *final(self), WebGLCommand::Hint(target, mode))
            } else {
                rejected(*old(self), *final(self), WebGLError::InvalidEnum)
            },
    {
        if self.check_lost() {
            return ;
        }
        if target != constants::GENERATE_MIPMAP_HINT
            && !self.state.extensions.is_hint_target_enabled(target) {
            return self.webgl_error(WebGLError::InvalidEnum);
        }
        match mode {
            constants::FASTEST | constants::NICEST | constants::DONT_CARE => (),
            _ => return self.webgl_error(WebGLError::InvalidEnum),
        }
        self.send_command(WebGLCommand::Hint(target, mode));
    }

    /// Sets the cached clear color and forwards it.
    pub fn ClearColor(&mut self, red: u32, green: u32, blue: u32, alpha: u32)
        requires
            old(self).valid(),
        ensures
            final(self).valid(),
            if old(self).lost {
                rejected(*old(self), *final(self), WebGLError::ContextLost)
            } else {
                applied(
                    *old(self),
                    *final(self),
                    ContextState {
                        current_clear_color: (red, green, blue, alpha),
                        ..old(self).state
                    },
                    seq![WebGLCommand::ClearColor(red, green, blue, alpha)],
                )
            },
    {
        if self.check_lost() {
            return ;
        }
        self.state.current_clear_color = (red, green, blue, alpha);
        self.send_command(WebGLCommand::ClearColor(red, green, blue, alpha));
    }

    /// Sets the depth clear value.
    pub fn ClearDepth(&mut self, depth: u32)
        requires
            old(self).valid(),
        ensures
            final(self).valid(),
            if old(self).lost {
                rejected(*old(self), *final(self), WebGLError::ContextLost)
            } else {
                sent1(*old(self), *final(self), WebGLCommand::ClearDepth(depth))
            },
    {
        if self.check_lost() {
            return ;
        }
        self.send_command(WebGLCommand::ClearDepth(depth));
    }

    /// Sets the stencil clear value.
    pub fn ClearStencil(&mut self, stencil: i32)
        requires
            old(self).valid(),
        ensures
            final(self).valid(),
            if old(self).lost {
                rejected(*old(self), *final(self), WebGLError::ContextLost)
            } else {
                sent1(*old(self), *final(self), WebGLCommand::ClearStencil(stencil))
            },
    {
        if self.check_lost() {
            return ;
        }
        self.send_command(WebGLCommand::ClearStencil(stencil));
    }

    /// Clears the selected buffers of the bound framebuffer. The
    /// framebuffer must be usable; a mask with a bit outside the three
    /// buffer bits is rejected with `InvalidValue`.
    pub fn Clear(&mut self, mask: u32)
        requires
            old(self).valid(),
        ensures
            final(self).valid(),
            if old(self).lost {
                rejected(*old(self), *final(self), WebGLError::ContextLost)
            } else {
                match spec_validate_framebuffer(old(self).state) {
                    Err(e) => rejected(*old(self), *final(self), e),
                    Ok(()) => {
                        if mask & !(constants::DEPTH_BUFFER_BIT | constants::STENCIL_BUFFER_BIT
                            | constants::COLOR_BUFFER_BIT) != 0 {
                            rejected(*old(self), *final(self), WebGLError::InvalidValue)
                        } else {
                            sent1(*old(self), *final(self), WebGLCommand::Clear(mask))
                        }
                    },
                }
            },
    {
        if self.check_lost() {
            return ;
        }
        match self.validate_framebuffer() {
            Err(e) => return self.webgl_error(e),
            Ok(()) => (),
        }
        if mask & !(constants::DEPTH_BUFFER_BIT | constants::STENCIL_BUFFER_BIT
            | constants::COLOR_BUFFER_BIT) != 0 {
            return self.webgl_error(WebGLError::InvalidValue);
        }
        self.send_command(WebGLCommand::Clear(mask));
    }

    /// Sets the scissor rectangle; negative extents are rejected with
    /// `InvalidValue`. The rectangle is cached for resize
    /// resynchronization.
    pub fn Scissor(&mut self, x: i32, y: i32, width: i32, height: i32)
        requires
            old(self).valid(),
        ensures
            final(self).valid(),
            if old(self).lost {
                rejected(*old(self), *final(self), WebGLError::ContextLost)
            } else if width < 0 || height < 0 {
                rejected(*old(self), *final(self), WebGLError::InvalidValue)
            } else {
                applied(
                    *old(self),
                    *final(self),
                    ContextState {
                        current_scissor: (x, y, width as u32, height as u32),
                        ..old(self).state
                    },
                    seq![WebGLCommand::Scissor(x, y, width as u32, height as u32)],
                )
            },
    {
        if self.check_lost() {
            return ;
        }
        if width < 0 || height < 0 {
            return self.webgl_error(WebGLError::InvalidValue);
        }
        let w = width as u32;
        let h = height as u32;
        self.state.current_scissor = (x, y, w, h);
        self.send_command(WebGLCommand::Scissor(x, y, w, h));
    }

    /// Sets the viewport; negative extents are rejected with
    /// `InvalidValue`.
    pub fn Viewport(&mut self, x: i32, y: i32, width: i32, height: i32)
        requires
            old(self).valid(),
        ensures
            final(self).valid(),
            if old(self).lost {
                rejected(*old(self), *final(self), WebGLError::ContextLost)
            } else if width < 0 || height < 0 {
                rejected(*old(self), *final(self), WebGLError::InvalidValue)
            } else {
                sent1(*old(self), *final(self), WebGLCommand::SetViewport(x, y, width, height))
            },
    {
        if self.check_lost() {
            return ;
        }
        if width < 0 || height < 0 {
            return self.webgl_error(WebGLError::InvalidValue);
        }
        self.send_command(WebGLCommand::SetViewport(x, y, width, height));
    }

    /// Sets a pixel storage parameter. Alignments are restricted to 1, 2,
    /// 4 and 8; the colorspace-conversion enum to its two documented
    /// values. No command is sent: the settings apply on the calling side.
    pub fn PixelStorei(&mut self, param_name: u32, param_value: i32)
        requires
            old(self).valid(),
        ensures
            final(self).valid(),
            if old(self).lost {
                rejected(*old(self), *final(self), WebGLError::ContextLost)
            } else if param_name == constants::UNPACK_FLIP_Y_WEBGL {
                applied(
                    *old(self),
                    *final(self),
                    ContextState { unpack_flip_y: param_value != 0, ..old(self).state },
                    Seq::empty(),
                )
            } else if param_name == constants::UNPACK_PREMULTIPLY_ALPHA_WEBGL {
                applied(
                    *old(self),
                    *final(self),
                    ContextState {
                        unpack_premultiply_alpha: param_value != 0,
                        ..old(self).state
                    },
                    Seq::empty(),
                )
            } else if param_name == constants::UNPACK_COLORSPACE_CONVERSION_WEBGL {
                if param_value as u32 == constants::BROWSER_DEFAULT_WEBGL || param_value as u32
                    == constants::NONE {
                    applied(
                        *old(self),
                        *final(self),
                        ContextState {
                            unpack_colorspace_conversion: (
                            param_value as u32 == constants::BROWSER_DEFAULT_WEBGL),
                            ..old(self).state
                        },
                        Seq::empty(),
                    )
                } else {
                    rejected(*old(self), *final(self), WebGLError::InvalidEnum)
                }
            } else if param_name == constants::UNPACK_ALIGNMENT {
                if param_value == 1 || param_value == 2 || param_value == 4 || param_value == 8 {
                    applied(
                        *old(self),
                        *final(self),
                        ContextState { unpack_alignment: param_value as u32, ..old(self).state },
                        Seq::empty(),
                    )
                } else {
                    rejected(*old(self), *final(self), WebGLError::InvalidValue)
                }
            } else if param_name == constants::PACK_ALIGNMENT {
                if param_value == 1 || param_value == 2 || param_value == 4 || param_value == 8 {
                    applied(
                        *old(self),
                        *final(self),
                        ContextState { pack_alignment: param_value as u32, ..old(self).state },
                        Seq::empty(),
                    )
                } else {
                    rejected(*old(self), *final(self), WebGLError::InvalidValue)
                }
            } else {
                rejected(*old(self), *final(self), WebGLError::InvalidEnum)
            },
    {
        if self.check_lost() {
            return ;
        }
        match param_name {
            constants::UNPACK_FLIP_Y_WEBGL => {
                self.state.unpack_flip_y = param_value != 0;
            },
            constants::UNPACK_PREMULTIPLY_ALPHA_WEBGL => {
                self.state.unpack_premultiply_alpha = param_value != 0;
            },
            constants::UNPACK_COLORSPACE_CONVERSION_WEBGL => {
                let v = param_value as u32;
                if v == constants::BROWSER_DEFAULT_WEBGL {
                    self.state.unpack_colorspace_conversion = true;
                } else if v == constants::NONE {
                    self.state.unpack_colorspace_conversion = false;
                } else {
                    self.webgl_error(WebGLError::InvalidEnum);
                }
            },
            constants::UNPACK_ALIGNMENT => {
                match param_value {
                    1 | 2 | 4 | 8 => {
                        self.state.unpack_alignment = param_value as u32;
                    },
                    _ => self.webgl_error(WebGLError::InvalidValue),
                }
            },
            constants::PACK_ALIGNMENT => {
                match param_value {
                    1 | 2 | 4 | 8 => {
                        self.state.pack_alignment = param_value as u32;
                    },
                    _ => self.webgl_error(WebGLError::InvalidValue),
                }
            },
            _ => self.webgl_error(WebGLError::InvalidEnum),
        }
    }

    /// Asks the backend to flush its command stream.
    pub fn Flush(&mut self)
        requires
            old(self).valid(),
        ensures
            final(self).valid(),
            if old(self).lost {
                rejected(*old(self), *final(self), WebGLError::ContextLost)
            } else {
                sent1(*old(self), *final(self), WebGLCommand::Flush)
            },
    {
        if self.check_lost() {
            return ;
        }
        self.send_command(WebGLCommand::Flush);
    }

    /// Issues the synchronization query; the host blocks on the backend's
    /// reply before returning control to the caller.
    pub fn Finish(&mut self)
        requires
            old(self).valid(),
        ensures
            final(self).valid(),
            if old(self).lost {
                rejected(*old(self), *final(self), WebGLError::ContextLost)
            } else {
                sent1(*old(self), *final(self), WebGLCommand::Finish)
            },
    {
        if self.check_lost() {
            return ;
        }
        self.send_command(WebGLCommand::Finish);
    }

    /// Width of the drawing buffer as this core tracks it.
    pub fn DrawingBufferWidth(&self) -> (r: u32)
        ensures
            r == self.state.size.0,
    {
        self.state.size.0
    }

    /// Height of the drawing buffer as this core tracks it.
    pub fn DrawingBufferHeight(&self) -> (r: u32)
        ensures
            r == self.state.size.1,
    {
        self.state.size.1
    }

    /// Asks the backend to clear freshly allocated framebuffer storage.
    pub fn initialize_framebuffer(&mut self, clear_bits: u32)
        requires
            old(self).valid(),
        ensures
            final(self).valid(),
            if old(self).lost {
                rejected(*old(self), *final(self), WebGLError::ContextLost)
            } else if clear_bits == 0 {
                unchanged(*old(self), *final(self))
            } else {
                sent1(
                    *old(self),
                    *final(self),
                    WebGLCommand::InitializeFramebuffer {
                        color: clear_bits & constants::COLOR_BUFFER_BIT != 0,
                        depth: clear_bits & constants::DEPTH_BUFFER_BIT != 0,
                        stencil: clear_bits & constants::STENCIL_BUFFER_BIT != 0,
                    },
                )
            },
    {
        if self.check_lost() {
            return ;
        }
        if clear_bits == 0 {
            return ;
        }
        self.send_command(
            WebGLCommand::InitializeFramebuffer {
                color: clear_bits & constants::COLOR_BUFFER_BIT != 0,
                depth: clear_bits & constants::DEPTH_BUFFER_BIT != 0,
                stencil: clear_bits & constants::STENCIL_BUFFER_BIT != 0,
            },
        );
    }
}

/// The resynchronization commands a resize requires: the resize itself,
/// then the cached clear color, the cached scissor rectangle, the active
/// unit's 2D texture binding and the framebuffer binding, because the
/// backend recreates its rendering target on resize and loses them.
pub open spec fn spec_recreate_cmds(s: ContextState, size: (u32, u32)) -> Seq<WebGLCommand> {
    seq![
        WebGLCommand::Resize(size.0, size.1),
        WebGLCommand::ClearColor(
            s.current_clear_color.0,
            s.current_clear_color.1,
            s.current_clear_color.2,
            s.current_clear_color.3,
        ),
        WebGLCommand::Scissor(
            s.current_scissor.0,
            s.current_scissor.1,
            s.current_scissor.2,
            s.current_scissor.3,
        ),
    ] + (match s.tex_units.units@[s.tex_units.active_unit as int].tex_2d {
        Some(id) => seq![WebGLCommand::BindTexture(constants::TEXTURE_2D, Some(id))],
        None => Seq::empty(),
    }) + (match s.bound_framebuffer {
        Some(id) => seq![
            WebGLCommand::BindFramebuffer(
                constants::FRAMEBUFFER,
                crate::command::FramebufferBinding::Explicit(id),
            ),
        ],
        None => Seq::empty(),
    })
}

impl WebGLRenderingContext {
    /// Resynchronizes the backend after a surface resize: records the new
    /// size and resends the cached state the backend loses when it
    /// recreates its rendering target.
    #[verifier::rlimit(50)]
    pub fn recreate(&mut self, size: (u32, u32))
        requires
            old(self).valid(),
        ensures
            final(self).valid(),
            if old(self).lost {
                rejected(*old(self), *final(self), WebGLError::ContextLost)
            } else {
                applied(
                    *old(self),
                    *final(self),
                    ContextState { size, ..old(self).state },
                    spec_recreate_cmds(old(self).state, size),
                )
            },
    {
        if self.check_lost() {
            return ;
        }
        let ghost pre = self.outbox@;
        let ghost s0 = self.state;
        self.send_command(WebGLCommand::Resize(size.0, size.1));
        let color = self.state.current_clear_color;
        self.send_command(WebGLCommand::ClearColor(color.0, color.1, color.2, color.3));
        let rect = self.state.current_scissor;
        self.send_command(WebGLCommand::Scissor(rect.0, rect.1, rect.2, rect.3));
        let unit = self.state.tex_units.active_unit as usize;
        match self.state.tex_units.units[unit].tex_2d {
            Some(id) => {
                self.send_command(WebGLCommand::BindTexture(constants::TEXTURE_2D, Some(id)));
            },
            None => (),
        }
        match self.state.bound_framebuffer {
            Some(id) => {
                self.send_command(
                    WebGLCommand::BindFramebuffer(
                        constants::FRAMEBUFFER,
                        crate::command::FramebufferBinding::Explicit(id),
                    ),
                );
            },
            None => (),
        }
        self.state.size = size;
        proof {
            assert(self.outbox@ =~= pre + spec_recreate_cmds(s0, size));
        }
    }
}

/// The closed set of comparison functions.
fn is_comparison_func(f: u32) -> (r: bool)
    ensures
        r == spec_is_comparison_func(f),
{
    match f {
        constants::NEVER | constants::LESS | constants::EQUAL | constants::LEQUAL
            | constants::GREATER | constants::NOTEQUAL | constants::GEQUAL | constants::ALWAYS => {
            true
        },
        _ => false,
    }
}

/// The closed set of stencil actions.
fn is_stencil_action(a: u32) -> (r: bool)
    ensures
        r == spec_is_stencil_action(a),
{
    match a {
        0 | constants::KEEP | constants::REPLACE | constants::INCR | constants::DECR
            | constants::INVERT | constants::INCR_WRAP | constants::DECR_WRAP => true,
        _ => false,
    }
}

/// The closed set of face selectors.
fn is_face(f: u32) -> (r: bool)
    ensures
        r == spec_is_face(f),
{
    match f {
        constants::FRONT | constants::BACK | constants::FRONT_AND_BACK => true,
        _ => false,
    }
}

/// The blend mutual-exclusion check in both orders.
fn has_conflict(a: u32, b: u32) -> (r: bool)
    ensures
        r == spec_blend_conflict(a, b),
{
    crate::context::has_invalid_blend_constants(a, b) || crate::context::has_invalid_blend_constants(b, a)
}

} // verus!
