//! Programs, uniform locations and uniform uploads.
//!
//! A captured location remembers the program's link generation; relinking
//! increments the generation, so every location captured before the relink
//! is stale and its use is rejected with `InvalidOperation`.

use vstd::prelude::*;

use crate::command::WebGLCommand;
use crate::constants;
use crate::context::{
    applied, rejected, sent1, unchanged, ContextState, WebGLRenderingContext,
};
use crate::error::WebGLError;
use crate::objects::{LinkOutcome, ProgramState, WebGLProgram, WebGLUniformLocation};

verus! {

/// A location is usable under the context's current state: a program is
/// in use, it is the location's program, and the location was captured at
/// the program's current link generation.
pub open spec fn spec_location_current(s: ContextState, loc: WebGLUniformLocation) -> bool {
    match s.current_program {
        Some(pid) => pid == loc.program_id && s.programs@[pid - 1].link_generation
            == loc.link_generation,
        None => false,
    }
}

/// The reflection data of a link outcome stays inside the attribute
/// limit.
pub open spec fn spec_outcome_attribs_ok(o: LinkOutcome, limits: crate::limits::GLLimits) -> bool {
    forall|i: int| 0 <= i < o.active_attribs@.len() ==> 0 <= #[trigger] o.active_attribs@[i].location
        < limits.max_vertex_attribs
}

impl WebGLRenderingContext {
    /// Links a program with the outcome the shader linker reports.
    /// Relinking always increments the link generation, which invalidates
    /// every previously captured uniform location. A link outcome whose
    /// attribute locations exceed the implementation limit is recorded as
    /// a failed link. Linking a deleted program is rejected with
    /// `InvalidValue`.
    #[verifier::rlimit(50)]
    pub fn LinkProgram(&mut self, program: &WebGLProgram, outcome: LinkOutcome)
        requires
            old(self).valid(),
        ensures
            final(self).valid(),
            if old(self).lost {
                rejected(*old(self), *final(self), WebGLError::ContextLost)
            } else if !old(self).owns_program(*program) {
                rejected(*old(self), *final(self), WebGLError::InvalidOperation)
            } else if old(self).state.programs@[program.id - 1].marked_for_deletion {
                rejected(*old(self), *final(self), WebGLError::InvalidValue)
            } else {
                let p0 = old(self).state.programs@[program.id - 1];
                let ok = outcome.linked && spec_outcome_attribs_ok(outcome, old(self).limits)
                    && outcome.active_uniforms@.len() <= 0x7FFF_FFFF;
                applied(
                    *old(self),
                    *final(self),
                    ContextState { programs: final(self).state.programs, ..old(self).state },
                    seq![WebGLCommand::LinkProgram(program.id)],
                ) && final(self).state.programs@.len() == old(self).state.programs@.len()
                    && (forall|k: int|
                    0 <= k < old(self).state.programs@.len() && k != program.id - 1 ==> final(self).state.programs@[k] == old(self).state.programs@[k]) && ({
                    let p1 = final(self).state.programs@[program.id - 1];
                    &&& p1.link_generation == spec_next_generation(p0.link_generation)
                    &&& p1.linked == ok
                    &&& p1.marked_for_deletion == p0.marked_for_deletion
                    &&& p1.in_use == p0.in_use
                    &&& p1.vertex_shader == p0.vertex_shader
                    &&& p1.fragment_shader == p0.fragment_shader
                    &&& (ok ==> p1.active_attribs@ == outcome.active_attribs@
                        && p1.active_uniforms@ == outcome.active_uniforms@)
                    &&& (!ok ==> p1.active_attribs@.len() == 0 && p1.active_uniforms@.len() == 0)
                })
            },
    {
        if self.check_lost() {
            return ;
        }
        if !self.validate_program_ownership(program) {
            return self.webgl_error(WebGLError::InvalidOperation);
        }
        let idx = (program.id - 1) as usize;
        if self.state.programs[idx].marked_for_deletion {
            return self.webgl_error(WebGLError::InvalidValue);
        }
        let attribs_ok = outcome_attribs_in_range(&outcome, self.limits.max_vertex_attribs);
        let uniforms_ok = outcome.active_uniforms.len() <= 0x7FFF_FFFF;
        let ok = outcome.linked && attribs_ok && uniforms_ok;
        let old_gen = self.state.programs[idx].link_generation;
        let new_gen: u64 = if old_gen == u64::MAX {
            u64::MAX
        } else {
            old_gen + 1
        };
        self.state.programs[idx].link_generation = new_gen;
        self.state.programs[idx].linked = ok;
        if ok {
            self.state.programs[idx].active_attribs = outcome.active_attribs;
            self.state.programs[idx].active_uniforms = outcome.active_uniforms;
        } else {
            self.state.programs[idx].active_attribs = Vec::new();
            self.state.programs[idx].active_uniforms = Vec::new();
        }
        self.send_command(WebGLCommand::LinkProgram(program.id));
    }

    /// Captures the location of an active uniform by its exact name. The
    /// program must be linked and live; a name that is not an active
    /// uniform reports `None` without an error. The captured location
    /// carries the program's current link generation.
    pub fn GetUniformLocation(&mut self, program: &WebGLProgram, name: String) -> (r: Option<
        WebGLUniformLocation,
    >)
        requires
            old(self).valid(),
        ensures
            final(self).valid(),
            if old(self).lost {
                rejected(*old(self), *final(self), WebGLError::ContextLost) && r is None
            } else if !old(self).owns_program(*program) {
                rejected(*old(self), *final(self), WebGLError::InvalidOperation) && r is None
            } else if old(self).state.programs@[program.id - 1].marked_for_deletion || !old(self).state.programs@[program.id - 1].linked {
                rejected(*old(self), *final(self), WebGLError::InvalidOperation) && r is None
            } else {
                let p = old(self).state.programs@[program.id - 1];
                unchanged(*old(self), *final(self)) && (match r {
                    Some(loc) => {
                        &&& 0 <= loc.id < p.active_uniforms@.len()
                        &&& p.active_uniforms@[loc.id as int].name@ == name@
                        &&& loc.ctx_id == old(self).ctx_id
                        &&& loc.program_id == program.id
                        &&& loc.link_generation == p.link_generation
                        &&& loc.type_ == p.active_uniforms@[loc.id as int].type_
                        &&& loc.is_array == (p.active_uniforms@[loc.id as int].size is Some)
                    },
                    None => forall|i: int|
                        0 <= i < p.active_uniforms@.len() ==> #[trigger] p.active_uniforms@[i].name@
                            != name@,
                })
            },
    {
        if self.check_lost() {
            return None;
        }
        if !self.validate_program_ownership(program) {
            self.webgl_error(WebGLError::InvalidOperation);
            return None;
        }
        let idx = (program.id - 1) as usize;
        if self.state.programs[idx].marked_for_deletion || !self.state.programs[idx].linked {
            self.webgl_error(WebGLError::InvalidOperation);
            return None;
        }
        let gen = self.state.programs[idx].link_generation;
        let n = self.state.programs[idx].active_uniforms.len();
        proof {
            assert(crate::context::program_wf(self.state.programs@[idx as int], self.limits));
        }
        let ghost pre = *self;
        let mut i: usize = 0;
        while i < n
            invariant
                i <= n,
                n <= 0x7FFF_FFFF,
                *self == pre,
                pre == *old(self),
                pre.valid(),
                !pre.lost,
                pre.owns_program(*program),
                0 < program.id,
                (program.id - 1) as usize == idx,
                idx < self.state.programs@.len(),
                !self.state.programs@[idx as int].marked_for_deletion,
                self.state.programs@[idx as int].linked,
                n == self.state.programs@[idx as int].active_uniforms@.len(),
                gen == self.state.programs@[idx as int].link_generation,
                forall|j: int|
                    0 <= j < i ==> #[trigger] self.state.programs@[idx as int].active_uniforms@[j].name@
                        != name@,
            decreases n - i,
        {
            let info = &self.state.programs[idx].active_uniforms[i];
            if str_eq(&info.name, &name) {
                let type_ = info.type_;
                let is_array = info.size.is_some();
                let size = match info.size {
                    Some(s) => s,
                    None => 1,
                };
                return Some(
                    WebGLUniformLocation {
                        ctx_id: self.ctx_id,
                        program_id: program.id,
                        id: i as i32,
                        link_generation: gen,
                        type_,
                        size,
                        is_array,
                    },
                );
            }
            i = i + 1;
        }
        None
    }

    /// Issues the read-back query for a uniform's current value; the
    /// host blocks on the backend's reply. The program must be live and
    /// linked, the location must be the program's own and not stale:
    /// a location captured before the last relink is rejected with
    /// `InvalidOperation` rather than silently answered.
    pub fn GetUniform(&mut self, program: &WebGLProgram, location: &WebGLUniformLocation) -> (r:
        Result<(), WebGLError>)
        requires
            old(self).valid(),
        ensures
            final(self).valid(),
            if old(self).lost {
                rejected(*old(self), *final(self), WebGLError::ContextLost) && r
                    == Result::<(), WebGLError>::Err(WebGLError::ContextLost)
            } else if !old(self).owns_program(*program) {
                rejected(*old(self), *final(self), WebGLError::InvalidOperation) && r
                    == Result::<(), WebGLError>::Err(WebGLError::InvalidOperation)
            } else {
                let p = old(self).state.programs@[program.id - 1];
                if p.marked_for_deletion || !p.linked || program.id != location.program_id
                    || p.link_generation != location.link_generation {
                    rejected(*old(self), *final(self), WebGLError::InvalidOperation) && r
                        == Result::<(), WebGLError>::Err(WebGLError::InvalidOperation)
                } else {
                    sent1(
                        *old(self),
                        *final(self),
                        WebGLCommand::GetUniform(program.id, location.id, location.type_),
                    ) && r is Ok
                }
            },
    {
        if self.check_lost() {
            return Err(WebGLError::ContextLost);
        }
        if !self.validate_program_ownership(program) {
            self.webgl_error(WebGLError::InvalidOperation);
            return Err(WebGLError::InvalidOperation);
        }
        let idx = (program.id - 1) as usize;
        if self.state.programs[idx].marked_for_deletion || !self.state.programs[idx].linked
            || program.id != location.program_id || self.state.programs[idx].link_generation
            != location.link_generation {
            self.webgl_error(WebGLError::InvalidOperation);
            return Err(WebGLError::InvalidOperation);
        }
        self.send_command(WebGLCommand::GetUniform(program.id, location.id, location.type_));
        Ok(())
    }

    /// The location check every uniform upload performs: some location
    /// was supplied, it belongs to this context's current program, and it
    /// is not stale. A stale location — one captured before the last
    /// relink — is rejected with `InvalidOperation` rather than ignored.
    fn location_current(&self, location: &WebGLUniformLocation) -> (r: bool)
        requires
            self.valid(),
            self.owns_uniform_location(*location),
        ensures
            r == spec_location_current(self.state, *location),
    {
        match self.state.current_program {
            Some(pid) => {
                pid == location.program_id && self.state.programs[(pid - 1) as usize]
                    .link_generation == location.link_generation
            },
            None => false,
        }
    }

    /// The location was captured from a program of this context.
    pub open spec fn owns_uniform_location(self, loc: WebGLUniformLocation) -> bool {
        loc.ctx_id == self.ctx_id && 0 < loc.program_id <= self.state.programs@.len()
    }

    /// The location was captured from a program of this context.
    fn validate_location_ownership(&self, loc: &WebGLUniformLocation) -> (r: bool)
        ensures
            r == self.owns_uniform_location(*loc),
    {
        loc.ctx_id == self.ctx_id && 0 < loc.program_id && loc.program_id as usize
            <= self.state.programs.len()
    }

    /// Uploads a scalar integer uniform. Sampler uniforms additionally
    /// require the value to name an existing texture unit, else
    /// `InvalidValue`.
    pub fn Uniform1i(&mut self, location: Option<&WebGLUniformLocation>, val: i32)
        requires
            old(self).valid(),
        ensures
            final(self).valid(),
            if old(self).lost {
                rejected(*old(self), *final(self), WebGLError::ContextLost)
            } else {
                match location {
                    None => unchanged(*old(self), *final(self)),
                    Some(loc) => {
                        if !old(self).owns_uniform_location(*loc) {
                            rejected(*old(self), *final(self), WebGLError::InvalidOperation)
                        } else if !spec_location_current(old(self).state, *loc) {
                            rejected(*old(self), *final(self), WebGLError::InvalidOperation)
                        } else if loc.type_ == constants::BOOL || loc.type_ == constants::INT {
                            sent1(*old(self), *final(self), WebGLCommand::Uniform1i(loc.id, val))
                        } else if loc.type_ == constants::SAMPLER_2D || loc.type_
                            == constants::SAMPLER_CUBE {
                            if val < 0 || val as u32
                                >= old(self).limits.max_combined_texture_image_units {
                                rejected(*old(self), *final(self), WebGLError::InvalidValue)
                            } else {
                                sent1(
                                    *old(self),
                                    *final(self),
                                    WebGLCommand::Uniform1i(loc.id, val),
                                )
                            }
                        } else {
                            rejected(*old(self), *final(self), WebGLError::InvalidOperation)
                        }
                    },
                }
            },
    {
        if self.check_lost() {
            return ;
        }
        let loc = match location {
            Some(loc) => loc,
            None => return ,
        };
        if !self.validate_location_ownership(loc) {
            return self.webgl_error(WebGLError::InvalidOperation);
        }
        if !self.location_current(loc) {
            return self.webgl_error(WebGLError::InvalidOperation);
        }
        match loc.type_ {
            constants::BOOL | constants::INT => (),
            constants::SAMPLER_2D | constants::SAMPLER_CUBE => {
                if val < 0 || val as u32 >= self.limits.max_combined_texture_image_units {
                    return self.webgl_error(WebGLError::InvalidValue);
                }
            },
            _ => return self.webgl_error(WebGLError::InvalidOperation),
        }
        self.send_command(WebGLCommand::Uniform1i(loc.id, val));
    }

    /// Uploads a scalar float uniform; the value is an IEEE-754 bit
    /// pattern.
    pub fn Uniform1f(&mut self, location: Option<&WebGLUniformLocation>, val: u32)
        requires
            old(self).valid(),
        ensures
            final(self).valid(),
            if old(self).lost {
                rejected(*old(self), *final(self), WebGLError::ContextLost)
            } else {
                match location {
                    None => unchanged(*old(self), *final(self)),
                    Some(loc) => {
                        if !old(self).owns_uniform_location(*loc) {
                            rejected(*old(self), *final(self), WebGLError::InvalidOperation)
                        } else if !spec_location_current(old(self).state, *loc) {
                            rejected(*old(self), *final(self), WebGLError::InvalidOperation)
                        } else if loc.type_ == constants::BOOL || loc.type_ == constants::FLOAT {
                            sent1(*old(self), *final(self), WebGLCommand::Uniform1f(loc.id, val))
                        } else {
                            rejected(*old(self), *final(self), WebGLError::InvalidOperation)
                        }
                    },
                }
            },
    {
        if self.check_lost() {
            return ;
        }
        let loc = match location {
            Some(loc) => loc,
            None => return ,
        };
        if !self.validate_location_ownership(loc) {
            return self.webgl_error(WebGLError::InvalidOperation);
        }
        if !self.location_current(loc) {
            return self.webgl_error(WebGLError::InvalidOperation);
        }
        match loc.type_ {
            constants::BOOL | constants::FLOAT => (),
            _ => return self.webgl_error(WebGLError::InvalidOperation),
        }
        self.send_command(WebGLCommand::Uniform1f(loc.id, val));
    }

    /// Uploads a two-component float uniform; the values are IEEE-754
    /// bit patterns.
    pub fn Uniform2f(&mut self, location: Option<&WebGLUniformLocation>, x: u32, y: u32)
        requires
            old(self).valid(),
        ensures
            final(self).valid(),
            spec_scalar_uniform_post(
                *old(self),
                *final(self),
                location,
                constants::BOOL_VEC2,
                constants::FLOAT_VEC2,
                (match location {
                    Some(loc) => WebGLCommand::Uniform2f(loc.id, x, y),
                    None => WebGLCommand::Flush,
                }),
            ),
    {
        if self.check_lost() {
            return ;
        }
        let loc = match location {
            Some(loc) => loc,
            None => return ,
        };
        match self.scalar_uniform_verdict(loc, constants::BOOL_VEC2, constants::FLOAT_VEC2) {
            Some(e) => self.webgl_error(e),
            None => self.send_command(WebGLCommand::Uniform2f(loc.id, x, y)),
        }
    }

    /// Uploads a two-component integer uniform.
    pub fn Uniform2i(&mut self, location: Option<&WebGLUniformLocation>, x: i32, y: i32)
        requires
            old(self).valid(),
        ensures
            final(self).valid(),
            spec_scalar_uniform_post(
                *old(self),
                *final(self),
                location,
                constants::BOOL_VEC2,
                constants::INT_VEC2,
                (match location {
                    Some(loc) => WebGLCommand::Uniform2i(loc.id, x, y),
                    None => WebGLCommand::Flush,
                }),
            ),
    {
        if self.check_lost() {
            return ;
        }
        let loc = match location {
            Some(loc) => loc,
            None => return ,
        };
        match self.scalar_uniform_verdict(loc, constants::BOOL_VEC2, constants::INT_VEC2) {
            Some(e) => self.webgl_error(e),
            None => self.send_command(WebGLCommand::Uniform2i(loc.id, x, y)),
        }
    }

    /// Uploads a three-component float uniform; the values are IEEE-754
    /// bit patterns.
    pub fn Uniform3f(&mut self, location: Option<&WebGLUniformLocation>, x: u32, y: u32, z: u32)
        requires
            old(self).valid(),
        ensures
            final(self).valid(),
            spec_scalar_uniform_post(
                *old(self),
                *final(self),
                location,
                constants::BOOL_VEC3,
                constants::FLOAT_VEC3,
                (match location {
                    Some(loc) => WebGLCommand::Uniform3f(loc.id, x, y, z),
                    None => WebGLCommand::Flush,
                }),
            ),
    {
        if self.check_lost() {
            return ;
        }
        let loc = match location {
            Some(loc) => loc,
            None => return ,
        };
        match self.scalar_uniform_verdict(loc, constants::BOOL_VEC3, constants::FLOAT_VEC3) {
            Some(e) => self.webgl_error(e),
            None => self.send_command(WebGLCommand::Uniform3f(loc.id, x, y, z)),
        }
    }

    /// Uploads a three-component integer uniform.
    pub fn Uniform3i(&mut self, location: Option<&WebGLUniformLocation>, x: i32, y: i32, z: i32)
        requires
            old(self).valid(),
        ensures
            final(self).valid(),
            spec_scalar_uniform_post(
                *old(self),
                *final(self),
                location,
                constants::BOOL_VEC3,
                constants::INT_VEC3,
                (match location {
                    Some(loc) => WebGLCommand::Uniform3i(loc.id, x, y, z),
                    None => WebGLCommand::Flush,
                }),
            ),
    {
        if self.check_lost() {
            return ;
        }
        let loc = match location {
            Some(loc) => loc,
            None => return ,
        };
        match self.scalar_uniform_verdict(loc, constants::BOOL_VEC3, constants::INT_VEC3) {
            Some(e) => self.webgl_error(e),
            None => self.send_command(WebGLCommand::Uniform3i(loc.id, x, y, z)),
        }
    }

    /// Uploads a four-component float uniform; the values are IEEE-754
    /// bit patterns.
    pub fn Uniform4f(
        &mut self,
        location: Option<&WebGLUniformLocation>,
        x: u32,
        y: u32,
        z: u32,
        w: u32,
    )
        requires
            old(self).valid(),
        ensures
            final(self).valid(),
            spec_scalar_uniform_post(
                *old(self),
                *final(self),
                location,
                constants::BOOL_VEC4,
                constants::FLOAT_VEC4,
                (match location {
                    Some(loc) => WebGLCommand::Uniform4f(loc.id, x, y, z, w),
                    None => WebGLCommand::Flush,
                }),
            ),
    {
        if self.check_lost() {
            return ;
        }
        let loc = match location {
            Some(loc) => loc,
            None => return ,
        };
        match self.scalar_uniform_verdict(loc, constants::BOOL_VEC4, constants::FLOAT_VEC4) {
            Some(e) => self.webgl_error(e),
            None => self.send_command(WebGLCommand::Uniform4f(loc.id, x, y, z, w)),
        }
    }

    /// Uploads a four-component integer uniform.
    pub fn Uniform4i(
        &mut self,
        location: Option<&WebGLUniformLocation>,
        x: i32,
        y: i32,
        z: i32,
        w: i32,
    )
        requires
            old(self).valid(),
        ensures
            final(self).valid(),
            spec_scalar_uniform_post(
                *old(self),
                *final(self),
                location,
                constants::BOOL_VEC4,
                constants::INT_VEC4,
                (match location {
                    Some(loc) => WebGLCommand::Uniform4i(loc.id, x, y, z, w),
                    None => WebGLCommand::Flush,
                }),
            ),
    {
        if self.check_lost() {
            return ;
        }
        let loc = match location {
            Some(loc) => loc,
            None => return ,
        };
        match self.scalar_uniform_verdict(loc, constants::BOOL_VEC4, constants::INT_VEC4) {
            Some(e) => self.webgl_error(e),
            None => self.send_command(WebGLCommand::Uniform4i(loc.id, x, y, z, w)),
        }
    }

    /// The checks every scalar uniform upload shares: ownership, a
    /// current location and one of the two accepted types.
    fn scalar_uniform_verdict(&self, loc: &WebGLUniformLocation, t1: u32, t2: u32) -> (r: Option<
        WebGLError,
    >)
        requires
            self.valid(),
        ensures
            r == spec_scalar_uniform_verdict(*self, *loc, t1, t2),
    {
        if !self.validate_location_ownership(loc) {
            return Some(WebGLError::InvalidOperation);
        }
        if !self.location_current(loc) {
            return Some(WebGLError::InvalidOperation);
        }
        if loc.type_ != t1 && loc.type_ != t2 {
            return Some(WebGLError::InvalidOperation);
        }
        None
    }

    /// The checks every vector uniform upload shares: the scalar checks,
    /// then the length rules — a positive multiple of the element count,
    /// and exactly one element group for a non-array uniform.
    fn vector_uniform_verdict(
        &self,
        loc: &WebGLUniformLocation,
        t1: u32,
        t2: u32,
        elems: usize,
        len: usize,
    ) -> (r: Option<WebGLError>)
        requires
            self.valid(),
            1 <= elems,
        ensures
            r == spec_vector_uniform_verdict(*self, *loc, t1, t2, elems as nat, len as nat),
    {
        match self.scalar_uniform_verdict(loc, t1, t2) {
            Some(e) => Some(e),
            None => {
                if len < elems || len % elems != 0 {
                    Some(WebGLError::InvalidValue)
                } else if !loc.is_array && len != elems {
                    Some(WebGLError::InvalidOperation)
                } else {
                    None
                }
            },
        }
    }

    /// Uploads a float uniform array; the values are IEEE-754 bit
    /// patterns.
    pub fn Uniform1fv(&mut self, location: Option<&WebGLUniformLocation>, val: Vec<u32>)
        requires
            old(self).valid(),
        ensures
            final(self).valid(),
            spec_vector_uniform_post(
                *old(self),
                *final(self),
                location,
                constants::BOOL,
                constants::FLOAT,
                1,
                val@.len(),
                (match location {
                    Some(loc) => WebGLCommand::Uniform1fv(loc.id, val),
                    None => WebGLCommand::Flush,
                }),
            ),
    {
        if self.check_lost() {
            return ;
        }
        let loc = match location {
            Some(loc) => loc,
            None => return ,
        };
        match self.vector_uniform_verdict(loc, constants::BOOL, constants::FLOAT, 1, val.len()) {
            Some(e) => self.webgl_error(e),
            None => self.send_command(WebGLCommand::Uniform1fv(loc.id, val)),
        }
    }

    /// Uploads a two-component float uniform array.
    pub fn Uniform2fv(&mut self, location: Option<&WebGLUniformLocation>, val: Vec<u32>)
        requires
            old(self).valid(),
        ensures
            final(self).valid(),
            spec_vector_uniform_post(
                *old(self),
                *final(self),
                location,
                constants::BOOL_VEC2,
                constants::FLOAT_VEC2,
                2,
                val@.len(),
                (match location {
                    Some(loc) => WebGLCommand::Uniform2fv(loc.id, val),
                    None => WebGLCommand::Flush,
                }),
            ),
    {
        if self.check_lost() {
            return ;
        }
        let loc = match location {
            Some(loc) => loc,
            None => return ,
        };
        match self.vector_uniform_verdict(
            loc,
            constants::BOOL_VEC2,
            constants::FLOAT_VEC2,
            2,
            val.len(),
        ) {
            Some(e) => self.webgl_error(e),
            None => self.send_command(WebGLCommand::Uniform2fv(loc.id, val)),
        }
    }

    /// Uploads a three-component float uniform array.
    pub fn Uniform3fv(&mut self, location: Option<&WebGLUniformLocation>, val: Vec<u32>)
        requires
            old(self).valid(),
        ensures
            final(self).valid(),
            spec_vector_uniform_post(
                *old(self),
                *final(self),
                location,
                constants::BOOL_VEC3,
                constants::FLOAT_VEC3,
                3,
                val@.len(),
                (match location {
                    Some(loc) => WebGLCommand::Uniform3fv(loc.id, val),
                    None => WebGLCommand::Flush,
                }),
            ),
    {
        if self.check_lost() {
            return ;
        }
        let loc = match location {
            Some(loc) => loc,
            None => return ,
        };
        match self.vector_uniform_verdict(
            loc,
            constants::BOOL_VEC3,
            constants::FLOAT_VEC3,
            3,
            val.len(),
        ) {
            Some(e) => self.webgl_error(e),
            None => self.send_command(WebGLCommand::Uniform3fv(loc.id, val)),
        }
    }

    /// Uploads a four-component float uniform array.
    pub fn Uniform4fv(&mut self, location: Option<&WebGLUniformLocation>, val: Vec<u32>)
        requires
            old(self).valid(),
        ensures
            final(self).valid(),
            spec_vector_uniform_post(
                *old(self),
                *final(self),
                location,
                constants::BOOL_VEC4,
                constants::FLOAT_VEC4,
                4,
                val@.len(),
                (match location {
                    Some(loc) => WebGLCommand::Uniform4fv(loc.id, val),
                    None => WebGLCommand::Flush,
                }),
            ),
    {
        if self.check_lost() {
            return ;
        }
        let loc = match location {
            Some(loc) => loc,
            None => return ,
        };
        match self.vector_uniform_verdict(
            loc,
            constants::BOOL_VEC4,
            constants::FLOAT_VEC4,
            4,
            val.len(),
        ) {
            Some(e) => self.webgl_error(e),
            None => self.send_command(WebGLCommand::Uniform4fv(loc.id, val)),
        }
    }

    /// Uploads a two-component integer uniform array.
    pub fn Uniform2iv(&mut self, location: Option<&WebGLUniformLocation>, val: Vec<i32>)
        requires
            old(self).valid(),
        ensures
            final(self).valid(),
            spec_vector_uniform_post(
                *old(self),
                *final(self),
                location,
                constants::BOOL_VEC2,
                constants::INT_VEC2,
                2,
                val@.len(),
                (match location {
                    Some(loc) => WebGLCommand::Uniform2iv(loc.id, val),
                    None => WebGLCommand::Flush,
                }),
            ),
    {
        if self.check_lost() {
            return ;
        }
        let loc = match location {
            Some(loc) => loc,
            None => return ,
        };
        match self.vector_uniform_verdict(
            loc,
            constants::BOOL_VEC2,
            constants::INT_VEC2,
            2,
            val.len(),
        ) {
            Some(e) => self.webgl_error(e),
            None => self.send_command(WebGLCommand::Uniform2iv(loc.id, val)),
        }
    }

    /// Uploads a three-component integer uniform array.
    pub fn Uniform3iv(&mut self, location: Option<&WebGLUniformLocation>, val: Vec<i32>)
        requires
            old(self).valid(),
        ensures
            final(self).valid(),
            spec_vector_uniform_post(
                *old(self),
                *final(self),
                location,
                constants::BOOL_VEC3,
                constants::INT_VEC3,
                3,
                val@.len(),
                (match location {
                    Some(loc) => WebGLCommand::Uniform3iv(loc.id, val),
                    None => WebGLCommand::Flush,
                }),
            ),
    {
        if self.check_lost() {
            return ;
        }
        let loc = match location {
            Some(loc) => loc,
            None => return ,
        };
        match self.vector_uniform_verdict(
            loc,
            constants::BOOL_VEC3,
            constants::INT_VEC3,
            3,
            val.len(),
        ) {
            Some(e) => self.webgl_error(e),
            None => self.send_command(WebGLCommand::Uniform3iv(loc.id, val)),
        }
    }

    /// Uploads a four-component integer uniform array.
    pub fn Uniform4iv(&mut self, location: Option<&WebGLUniformLocation>, val: Vec<i32>)
        requires
            old(self).valid(),
        ensures
            final(self).valid(),
            spec_vector_uniform_post(
                *old(self),
                *final(self),
                location,
                constants::BOOL_VEC4,
                constants::INT_VEC4,
                4,
                val@.len(),
                (match location {
                    Some(loc) => WebGLCommand::Uniform4iv(loc.id, val),
                    None => WebGLCommand::Flush,
                }),
            ),
    {
        if self.check_lost() {
            return ;
        }
        let loc = match location {
            Some(loc) => loc,
            None => return ,
        };
        match self.vector_uniform_verdict(
            loc,
            constants::BOOL_VEC4,
            constants::INT_VEC4,
            4,
            val.len(),
        ) {
            Some(e) => self.webgl_error(e),
            None => self.send_command(WebGLCommand::Uniform4iv(loc.id, val)),
        }
    }

    /// Uploads an integer uniform array. Sampler uniforms additionally
    /// require every value read by the uniform's array length to name an
    /// existing texture unit, else `InvalidValue`.
    #[verifier::rlimit(50)]
    pub fn Uniform1iv(&mut self, location: Option<&WebGLUniformLocation>, val: Vec<i32>)
        requires
            old(self).valid(),
        ensures
            final(self).valid(),
            if old(self).lost {
                rejected(*old(self), *final(self), WebGLError::ContextLost)
            } else {
                match location {
                    None => unchanged(*old(self), *final(self)),
                    Some(loc) => {
                        let verdict = spec_vector_uniform_verdict(
                            *old(self),
                            *loc,
                            constants::BOOL,
                            constants::INT,
                            1,
                            val@.len(),
                        );
                        let sampler = loc.type_ == constants::SAMPLER_2D || loc.type_
                            == constants::SAMPLER_CUBE;
                        let sampler_verdict = spec_vector_uniform_verdict(
                            *old(self),
                            *loc,
                            constants::SAMPLER_2D,
                            constants::SAMPLER_CUBE,
                            1,
                            val@.len(),
                        );
                        if !sampler {
                            match verdict {
                                Some(e) => rejected(*old(self), *final(self), e),
                                None => sent1(
                                    *old(self),
                                    *final(self),
                                    WebGLCommand::Uniform1iv(loc.id, val),
                                ),
                            }
                        } else {
                            match sampler_verdict {
                                Some(e) => rejected(*old(self), *final(self), e),
                                None => {
                                    if spec_sampler_values_ok(
                                        val@,
                                        *loc,
                                        old(self).limits.max_combined_texture_image_units,
                                    ) {
                                        sent1(
                                            *old(self),
                                            *final(self),
                                            WebGLCommand::Uniform1iv(loc.id, val),
                                        )
                                    } else {
                                        rejected(*old(self), *final(self), WebGLError::InvalidValue)
                                    }
                                },
                            }
                        }
                    },
                }
            },
    {
        if self.check_lost() {
            return ;
        }
        let loc = match location {
            Some(loc) => loc,
            None => return ,
        };
        let sampler = loc.type_ == constants::SAMPLER_2D || loc.type_ == constants::SAMPLER_CUBE;
        let verdict = if sampler {
            self.vector_uniform_verdict(
                loc,
                constants::SAMPLER_2D,
                constants::SAMPLER_CUBE,
                1,
                val.len(),
            )
        } else {
            self.vector_uniform_verdict(loc, constants::BOOL, constants::INT, 1, val.len())
        };
        match verdict {
            Some(e) => return self.webgl_error(e),
            None => (),
        }
        if sampler {
            if !self.sampler_values_in_range(loc, &val) {
                return self.webgl_error(WebGLError::InvalidValue);
            }
        }
        self.send_command(WebGLCommand::Uniform1iv(loc.id, val));
    }

    /// Whether every sampler value the uniform's array length reads
    /// names an existing texture unit.
    fn sampler_values_in_range(&self, loc: &WebGLUniformLocation, val: &Vec<i32>) -> (r: bool)
        ensures
            r == spec_sampler_values_ok(val@, *loc, self.limits.max_combined_texture_image_units),
    {
        let size: usize = if loc.size < 0 {
            0
        } else {
            loc.size as usize
        };
        let k = if size < val.len() {
            size
        } else {
            val.len()
        };
        let mut i: usize = 0;
        while i < k
            invariant
                i <= k,
                k == spec_sampler_prefix(val@, *loc),
                k <= val@.len(),
                forall|j: int|
                    0 <= j < i ==> 0 <= #[trigger] val@[j]
                        < self.limits.max_combined_texture_image_units,
            decreases k - i,
        {
            let v = val[i];
            if v < 0 || v as u32 >= self.limits.max_combined_texture_image_units {
                return false;
            }
            i = i + 1;
        }
        true
    }

    /// Uploads a four-by-four matrix uniform from IEEE-754 bit patterns.
    /// The transpose flag is not supported and always rejected with
    /// `InvalidValue`; the data length must be a positive multiple of
    /// sixteen, and exactly sixteen for a non-array uniform.
    pub fn UniformMatrix4fv(
        &mut self,
        location: Option<&WebGLUniformLocation>,
        transpose: bool,
        val: Vec<u32>,
    )
        requires
            old(self).valid(),
        ensures
            final(self).valid(),
            if old(self).lost {
                rejected(*old(self), *final(self), WebGLError::ContextLost)
            } else {
                match location {
                    None => unchanged(*old(self), *final(self)),
                    Some(loc) => spec_matrix_upload(
                        *old(self),
                        *final(self),
                        *loc,
                        constants::FLOAT_MAT4,
                        16,
                        transpose,
                        val,
                        WebGLCommand::UniformMatrix4fv(loc.id, val),
                    ),
                }
            },
    {
        if self.check_lost() {
            return ;
        }
        let loc = match location {
            Some(loc) => loc,
            None => return ,
        };
        if !self.validate_location_ownership(loc) {
            return self.webgl_error(WebGLError::InvalidOperation);
        }
        if !self.location_current(loc) {
            return self.webgl_error(WebGLError::InvalidOperation);
        }
        if loc.type_ != constants::FLOAT_MAT4 {
            return self.webgl_error(WebGLError::InvalidOperation);
        }
        if transpose {
            return self.webgl_error(WebGLError::InvalidValue);
        }
        if val.len() < 16 || val.len() % 16 != 0 {
            return self.webgl_error(WebGLError::InvalidValue);
        }
        if !loc.is_array && val.len() != 16 {
            return self.webgl_error(WebGLError::InvalidOperation);
        }
        self.send_command(WebGLCommand::UniformMatrix4fv(loc.id, val));
    }

    /// Uploads a two-by-two matrix uniform; same rules as the
    /// four-by-four case with element count four.
    pub fn UniformMatrix2fv(
        &mut self,
        location: Option<&WebGLUniformLocation>,
        transpose: bool,
        val: Vec<u32>,
    )
        requires
            old(self).valid(),
        ensures
            final(self).valid(),
            if old(self).lost {
                rejected(*old(self), *final(self), WebGLError::ContextLost)
            } else {
                match location {
                    None => unchanged(*old(self), *final(self)),
                    Some(loc) => spec_matrix_upload(
                        *old(self),
                        *final(self),
                        *loc,
                        constants::FLOAT_MAT2,
                        4,
                        transpose,
                        val,
                        WebGLCommand::UniformMatrix2fv(loc.id, val),
                    ),
                }
            },
    {
        if self.check_lost() {
            return ;
        }
        let loc = match location {
            Some(loc) => loc,
            None => return ,
        };
        if !self.validate_location_ownership(loc) {
            return self.webgl_error(WebGLError::InvalidOperation);
        }
        if !self.location_current(loc) {
            return self.webgl_error(WebGLError::InvalidOperation);
        }
        if loc.type_ != constants::FLOAT_MAT2 {
            return self.webgl_error(WebGLError::InvalidOperation);
        }
        if transpose {
            return self.webgl_error(WebGLError::InvalidValue);
        }
        if val.len() < 4 || val.len() % 4 != 0 {
            return self.webgl_error(WebGLError::InvalidValue);
        }
        if !loc.is_array && val.len() != 4 {
            return self.webgl_error(WebGLError::InvalidOperation);
        }
        self.send_command(WebGLCommand::UniformMatrix2fv(loc.id, val));
    }

    /// Uploads a three-by-three matrix uniform; same rules as the
    /// four-by-four case with element count nine.
    pub fn UniformMatrix3fv(
        &mut self,
        location: Option<&WebGLUniformLocation>,
        transpose: bool,
        val: Vec<u32>,
    )
        requires
            old(self).valid(),
        ensures
            final(self).valid(),
            if old(self).lost {
                rejected(*old(self), *final(self), WebGLError::ContextLost)
            } else {
                match location {
                    None => unchanged(*old(self), *final(self)),
                    Some(loc) => spec_matrix_upload(
                        *old(self),
                        *final(self),
                        *loc,
                        constants::FLOAT_MAT3,
                        9,
                        transpose,
                        val,
                        WebGLCommand::UniformMatrix3fv(loc.id, val),
                    ),
                }
            },
    {
        if self.check_lost() {
            return ;
        }
        let loc = match location {
            Some(loc) => loc,
            None => return ,
        };
        if !self.validate_location_ownership(loc) {
            return self.webgl_error(WebGLError::InvalidOperation);
        }
        if !self.location_current(loc) {
            return self.webgl_error(WebGLError::InvalidOperation);
        }
        if loc.type_ != constants::FLOAT_MAT3 {
            return self.webgl_error(WebGLError::InvalidOperation);
        }
        if transpose {
            return self.webgl_error(WebGLError::InvalidValue);
        }
        if val.len() < 9 || val.len() % 9 != 0 {
            return self.webgl_error(WebGLError::InvalidValue);
        }
        if !loc.is_array && val.len() != 9 {
            return self.webgl_error(WebGLError::InvalidOperation);
        }
        self.send_command(WebGLCommand::UniformMatrix3fv(loc.id, val));
    }

    /// Installs a program as the current one, or clears the selection. A
    /// deleted or unlinked program is rejected with `InvalidOperation`;
    /// re-installing the current program is a no-op.
    #[verifier::rlimit(100)]
    pub fn UseProgram(&mut self, program: Option<&WebGLProgram>)
        requires
            old(self).valid(),
        ensures
            final(self).valid(),
            if old(self).lost {
                rejected(*old(self), *final(self), WebGLError::ContextLost)
            } else {
                match program {
                    Some(h) => {
                        if !old(self).owns_program(*h) {
                            rejected(*old(self), *final(self), WebGLError::InvalidOperation)
                        } else if old(self).state.programs@[h.id - 1].marked_for_deletion || !old(self).state.programs@[h.id - 1].linked {
                            rejected(*old(self), *final(self), WebGLError::InvalidOperation)
                        } else if old(self).state.programs@[h.id - 1].in_use {
                            unchanged(*old(self), *final(self))
                        } else {
                            use_program_frame(
                                *old(self),
                                *final(self),
                                Some(h.id),
                                seq![WebGLCommand::UseProgram(Some(h.id))],
                            ) && spec_use_program_table(
                                old(self).state.programs@,
                                final(self).state.programs@,
                                old(self).state.current_program,
                                h.id,
                            )
                        }
                    },
                    None => {
                        use_program_frame(
                            *old(self),
                            *final(self),
                            None,
                            seq![WebGLCommand::UseProgram(None)],
                        ) && spec_release_program_table(
                            old(self).state.programs@,
                            final(self).state.programs@,
                            old(self).state.current_program,
                        )
                    },
                }
            },
    {
        if self.check_lost() {
            return ;
        }
        if let Some(h) = program {
            if !self.validate_program_ownership(h) {
                return self.webgl_error(WebGLError::InvalidOperation);
            }
            let idx = (h.id - 1) as usize;
            if self.state.programs[idx].marked_for_deletion || !self.state.programs[idx].linked {
                return self.webgl_error(WebGLError::InvalidOperation);
            }
            if self.state.programs[idx].in_use {
                return ;
            }
            self.state.programs[idx].in_use = true;
        }
        match program {
            Some(h) => {
                match self.state.current_program {
                    Some(prev) if prev != h.id => {
                        self.state.programs[(prev - 1) as usize].in_use = false;
                    },
                    _ => (),
                }
                self.state.current_program = Some(h.id);
                self.send_command(WebGLCommand::UseProgram(Some(h.id)));
            },
            None => {
                match self.state.current_program {
                    Some(prev) => {
                        self.state.programs[(prev - 1) as usize].in_use = false;
                    },
                    None => (),
                }
                self.state.current_program = None;
                self.send_command(WebGLCommand::UseProgram(None));
            },
        }
    }
}

/// The link generation after one more link: the counter saturates at its
/// type's end instead of wrapping, so a stale location never becomes
/// current again.
pub open spec fn spec_next_generation(g: u64) -> u64 {
    if g == u64::MAX {
        u64::MAX
    } else {
        (g + 1) as u64
    }
}

/// Relinking a program invalidates every uniform location captured
/// before the relink: the link generation moves strictly forward, so a
/// location carrying the old generation is no longer current.
pub proof fn lemma_relink_changes_generation(g: u64)
    requires
        g < u64::MAX,
    ensures
        spec_next_generation(g) != g,
{
}

/// Using a stale location is a failure, never a silent success: while
/// the location's program is the current one but its captured generation
/// differs from the program's, the location check every uniform upload
/// performs reports it as not current, and the upload is rejected with
/// `InvalidOperation`.
pub proof fn lemma_stale_location_is_not_current(s: ContextState, loc: WebGLUniformLocation)
    requires
        0 < loc.program_id <= s.programs@.len(),
        s.programs@[loc.program_id - 1].link_generation != loc.link_generation,
    ensures
        !spec_location_current(s, loc),
{
}

/// What a scalar uniform upload does: a foreign, stale or mistyped
/// location is an operation failure; otherwise the upload command is
/// sent.
pub open spec fn spec_scalar_uniform_post(
    pre: WebGLRenderingContext,
    post: WebGLRenderingContext,
    location: Option<&WebGLUniformLocation>,
    t1: u32,
    t2: u32,
    cmd: WebGLCommand,
) -> bool {
    if pre.lost {
        rejected(pre, post, WebGLError::ContextLost)
    } else {
        match location {
            None => unchanged(pre, post),
            Some(loc) => match spec_scalar_uniform_verdict(pre, *loc, t1, t2) {
                Some(e) => rejected(pre, post, e),
                None => sent1(pre, post, cmd),
            },
        }
    }
}

/// The first failing check of a scalar uniform upload, or `None`.
pub open spec fn spec_scalar_uniform_verdict(
    pre: WebGLRenderingContext,
    loc: WebGLUniformLocation,
    t1: u32,
    t2: u32,
) -> Option<WebGLError> {
    if !pre.owns_uniform_location(loc) {
        Some(WebGLError::InvalidOperation)
    } else if !spec_location_current(pre.state, loc) {
        Some(WebGLError::InvalidOperation)
    } else if loc.type_ != t1 && loc.type_ != t2 {
        Some(WebGLError::InvalidOperation)
    } else {
        None
    }
}

/// The first failing check of a vector uniform upload, or `None`: the
/// scalar checks, then the length rules.
pub open spec fn spec_vector_uniform_verdict(
    pre: WebGLRenderingContext,
    loc: WebGLUniformLocation,
    t1: u32,
    t2: u32,
    elems: nat,
    len: nat,
) -> Option<WebGLError> {
    match spec_scalar_uniform_verdict(pre, loc, t1, t2) {
        Some(e) => Some(e),
        None => {
            if len < elems || len % elems != 0 {
                Some(WebGLError::InvalidValue)
            } else if !loc.is_array && len != elems {
                Some(WebGLError::InvalidOperation)
            } else {
                None
            }
        },
    }
}

/// What a vector uniform upload does.
pub open spec fn spec_vector_uniform_post(
    pre: WebGLRenderingContext,
    post: WebGLRenderingContext,
    location: Option<&WebGLUniformLocation>,
    t1: u32,
    t2: u32,
    elems: nat,
    len: nat,
    cmd: WebGLCommand,
) -> bool {
    if pre.lost {
        rejected(pre, post, WebGLError::ContextLost)
    } else {
        match location {
            None => unchanged(pre, post),
            Some(loc) => match spec_vector_uniform_verdict(pre, *loc, t1, t2, elems, len) {
                Some(e) => rejected(pre, post, e),
                None => sent1(pre, post, cmd),
            },
        }
    }
}

/// How many leading values a sampler uniform upload checks: the
/// uniform's array length, capped by the data length.
pub open spec fn spec_sampler_prefix(vals: Seq<i32>, loc: WebGLUniformLocation) -> int {
    let size: int = if loc.size < 0 {
        0
    } else {
        loc.size as int
    };
    if size < vals.len() {
        size
    } else {
        vals.len() as int
    }
}

/// Every sampler value the uniform's array length reads names an
/// existing texture unit.
pub open spec fn spec_sampler_values_ok(
    vals: Seq<i32>,
    loc: WebGLUniformLocation,
    max_units: u32,
) -> bool {
    forall|j: int| 0 <= j < spec_sampler_prefix(vals, loc) ==> 0 <= #[trigger] vals[j] < max_units
}

/// The frame of `UseProgram`: only the current-program selection, the
/// program table and the outbox change.
pub open spec fn use_program_frame(
    pre: WebGLRenderingContext,
    post: WebGLRenderingContext,
    selection: Option<u32>,
    cmds: Seq<WebGLCommand>,
) -> bool {
    &&& crate::context::same_config(pre, post)
    &&& post.lost == pre.lost
    &&& post.last_error == pre.last_error
    &&& post.outbox@ == pre.outbox@ + cmds
    &&& post.state.current_program == selection
    &&& post.state.size == pre.state.size
    &&& post.state.pack_alignment == pre.state.pack_alignment
    &&& post.state.unpack_alignment == pre.state.unpack_alignment
    &&& post.state.unpack_flip_y == pre.state.unpack_flip_y
    &&& post.state.unpack_premultiply_alpha == pre.state.unpack_premultiply_alpha
    &&& post.state.unpack_colorspace_conversion == pre.state.unpack_colorspace_conversion
    &&& post.state.bound_framebuffer == pre.state.bound_framebuffer
    &&& post.state.bound_renderbuffer == pre.state.bound_renderbuffer
    &&& post.state.bound_array_buffer == pre.state.bound_array_buffer
    &&& post.state.current_vao == pre.state.current_vao
    &&& post.state.current_vertex_attrib_0 == pre.state.current_vertex_attrib_0
    &&& post.state.current_scissor == pre.state.current_scissor
    &&& post.state.current_clear_color == pre.state.current_clear_color
    &&& post.state.capabilities == pre.state.capabilities
    &&& post.state.extensions == pre.state.extensions
    &&& post.state.tex_units == pre.state.tex_units
    &&& post.state.buffers == pre.state.buffers
    &&& post.state.textures == pre.state.textures
    &&& post.state.renderbuffers == pre.state.renderbuffers
    &&& post.state.framebuffers == pre.state.framebuffers
    &&& post.state.shaders == pre.state.shaders
    &&& post.state.vaos == pre.state.vaos
}

/// The program table after installing `new_id`: the new program is in
/// use, a different previously current program is released, everything
/// else is untouched.
pub open spec fn spec_use_program_table(
    pre: Seq<ProgramState>,
    post: Seq<ProgramState>,
    prev: Option<u32>,
    new_id: u32,
) -> bool {
    &&& post.len() == pre.len()
    &&& post[new_id - 1] == (ProgramState { in_use: true, ..pre[new_id - 1] })
    &&& (match prev {
        Some(p) => p != new_id ==> post[p - 1] == (ProgramState { in_use: false, ..pre[p - 1] }),
        None => true,
    })
    &&& forall|k: int|
        0 <= k < pre.len() && k != new_id - 1 && (match prev {
            Some(p) => k != p - 1,
            None => true,
        }) ==> post[k] == pre[k]
}

/// The program table after clearing the selection: the previously
/// current program is released, everything else is untouched.
pub open spec fn spec_release_program_table(
    pre: Seq<ProgramState>,
    post: Seq<ProgramState>,
    prev: Option<u32>,
) -> bool {
    &&& post.len() == pre.len()
    &&& (match prev {
        Some(p) => post[p - 1] == (ProgramState { in_use: false, ..pre[p - 1] }),
        None => post == pre,
    })
    &&& forall|k: int|
        0 <= k < pre.len() && (match prev {
            Some(p) => k != p - 1,
            None => true,
        }) ==> post[k] == pre[k]
}

/// What a matrix-uniform upload does: a stale or mistyped location is an
/// operation failure; a set transpose flag or a length that is not a
/// positive multiple of the element count is a value failure; a non-array
/// uniform accepts exactly one matrix.
pub open spec fn spec_matrix_upload(
    pre: WebGLRenderingContext,
    post: WebGLRenderingContext,
    loc: WebGLUniformLocation,
    type_: u32,
    elems: nat,
    transpose: bool,
    val: Vec<u32>,
    cmd: WebGLCommand,
) -> bool {
    if !pre.owns_uniform_location(loc) {
        rejected(pre, post, WebGLError::InvalidOperation)
    } else if !spec_location_current(pre.state, loc) {
        rejected(pre, post, WebGLError::InvalidOperation)
    } else if loc.type_ != type_ {
        rejected(pre, post, WebGLError::InvalidOperation)
    } else if transpose {
        rejected(pre, post, WebGLError::InvalidValue)
    } else if val@.len() < elems || val@.len() % elems != 0 {
        rejected(pre, post, WebGLError::InvalidValue)
    } else if !loc.is_array && val@.len() != elems {
        rejected(pre, post, WebGLError::InvalidOperation)
    } else {
        crate::context::sent1(pre, post, cmd)
    }
}

/// Whether every attribute location of the outcome is inside the limit.
fn outcome_attribs_in_range(o: &LinkOutcome, max: u32) -> (r: bool)
    ensures
        r == (forall|i: int|
            0 <= i < o.active_attribs@.len() ==> 0 <= #[trigger] o.active_attribs@[i].location
                < max),
{
    let n = o.active_attribs.len();
    let mut i: usize = 0;
    while i < n
        invariant
            i <= n,
            n == o.active_attribs@.len(),
            forall|j: int| 0 <= j < i ==> 0 <= #[trigger] o.active_attribs@[j].location < max,
        decreases n - i,
    {
        let l = o.active_attribs[i].location;
        if l < 0 || l as u32 >= max {
            return false;
        }
        i = i + 1;
    }
    true
}

/// String equality on the character level.
fn str_eq(a: &String, b: &String) -> (r: bool)
    ensures
        r == (a@ == b@),
{
    a.eq(b)
}

} // verus!
