//! Shader objects, program attachment and reflection queries.
//!
//! Compiling and linking are the shader compiler's work, which is outside
//! this core; its verdicts enter as plain values and the bookkeeping and
//! legality rules around them are verified here.

use vstd::prelude::*;

use crate::command::WebGLCommand;
use crate::constants;
use crate::context::{
    applied, rejected, sent1, unchanged, ContextState, WebGLRenderingContext,
};
use crate::error::WebGLError;
use crate::objects::{
    ActiveAttribInfo, ActiveUniformInfo, ProgramState, ShaderState, WebGLProgram, WebGLShader,
};
use crate::queries::ParameterAnswer;

verus! {

/// The program record with the attachment slot of one shader kind
/// replaced.
pub open spec fn spec_program_set_slot(
    p: ProgramState,
    shader_type: u32,
    slot: Option<u32>,
) -> ProgramState {
    if shader_type == constants::VERTEX_SHADER {
        ProgramState { vertex_shader: slot, ..p }
    } else {
        ProgramState { fragment_shader: slot, ..p }
    }
}

/// The attachment slot a shader kind occupies.
pub open spec fn spec_program_slot(p: ProgramState, shader_type: u32) -> Option<u32> {
    if shader_type == constants::VERTEX_SHADER {
        p.vertex_shader
    } else {
        p.fragment_shader
    }
}

impl WebGLRenderingContext {
    /// Attaches a shader to its kind's slot of a program; an occupied
    /// slot is rejected with `InvalidOperation`.
    #[verifier::rlimit(50)]
    pub fn AttachShader(&mut self, program: &WebGLProgram, shader: &WebGLShader)
        requires
            old(self).valid(),
        ensures
            final(self).valid(),
            if old(self).lost {
                rejected(*old(self), *final(self), WebGLError::ContextLost)
            } else if !old(self).owns_program(*program) || !old(self).owns_shader(*shader) {
                rejected(*old(self), *final(self), WebGLError::InvalidOperation)
            } else {
                let p = old(self).state.programs@[program.id - 1];
                let st = old(self).state.shaders@[shader.id - 1].shader_type;
                if spec_program_slot(p, st) is Some {
                    rejected(*old(self), *final(self), WebGLError::InvalidOperation)
                } else {
                    applied(
                        *old(self),
                        *final(self),
                        ContextState { programs: final(self).state.programs, ..old(self).state },
                        seq![WebGLCommand::AttachShader(program.id, shader.id)],
                    ) && final(self).state.programs@ == old(self).state.programs@.update(
                        program.id - 1,
                        spec_program_set_slot(p, st, Some(shader.id)),
                    )
                }
            },
    {
        if self.check_lost() {
            return ;
        }
        if !self.validate_program_ownership(program) || !self.validate_shader_ownership(shader) {
            return self.webgl_error(WebGLError::InvalidOperation);
        }
        let pidx = (program.id - 1) as usize;
        let st = self.state.shaders[(shader.id - 1) as usize].shader_type;
        let occupied = if st == constants::VERTEX_SHADER {
            self.state.programs[pidx].vertex_shader.is_some()
        } else {
            self.state.programs[pidx].fragment_shader.is_some()
        };
        if occupied {
            return self.webgl_error(WebGLError::InvalidOperation);
        }
        if st == constants::VERTEX_SHADER {
            self.state.programs[pidx].vertex_shader = Some(shader.id);
        } else {
            self.state.programs[pidx].fragment_shader = Some(shader.id);
        }
        self.send_command(WebGLCommand::AttachShader(program.id, shader.id));
        proof {
            assert(self.state.programs@ =~= old(self).state.programs@.update(
                program.id - 1,
                spec_program_set_slot(
                    old(self).state.programs@[program.id - 1],
                    st,
                    Some(shader.id),
                ),
            ));
        }
    }

    /// Detaches a shader from a program; a slot not holding this shader
    /// is rejected with `InvalidOperation`.
    #[verifier::rlimit(50)]
    pub fn DetachShader(&mut self, program: &WebGLProgram, shader: &WebGLShader)
        requires
            old(self).valid(),
        ensures
            final(self).valid(),
            if old(self).lost {
                rejected(*old(self), *final(self), WebGLError::ContextLost)
            } else if !old(self).owns_program(*program) || !old(self).owns_shader(*shader) {
                rejected(*old(self), *final(self), WebGLError::InvalidOperation)
            } else {
                let p = old(self).state.programs@[program.id - 1];
                let st = old(self).state.shaders@[shader.id - 1].shader_type;
                if spec_program_slot(p, st) != Some(shader.id) {
                    rejected(*old(self), *final(self), WebGLError::InvalidOperation)
                } else {
                    applied(
                        *old(self),
                        *final(self),
                        ContextState { programs: final(self).state.programs, ..old(self).state },
                        seq![WebGLCommand::DetachShader(program.id, shader.id)],
                    ) && final(self).state.programs@ == old(self).state.programs@.update(
                        program.id - 1,
                        spec_program_set_slot(p, st, None),
                    )
                }
            },
    {
        if self.check_lost() {
            return ;
        }
        if !self.validate_program_ownership(program) || !self.validate_shader_ownership(shader) {
            return self.webgl_error(WebGLError::InvalidOperation);
        }
        let pidx = (program.id - 1) as usize;
        let st = self.state.shaders[(shader.id - 1) as usize].shader_type;
        let held = if st == constants::VERTEX_SHADER {
            self.state.programs[pidx].vertex_shader
        } else {
            self.state.programs[pidx].fragment_shader
        };
        let matches_shader = match held {
            Some(id) => id == shader.id,
            None => false,
        };
        if !matches_shader {
            return self.webgl_error(WebGLError::InvalidOperation);
        }
        if st == constants::VERTEX_SHADER {
            self.state.programs[pidx].vertex_shader = None;
        } else {
            self.state.programs[pidx].fragment_shader = None;
        }
        self.send_command(WebGLCommand::DetachShader(program.id, shader.id));
        proof {
            assert(self.state.programs@ =~= old(self).state.programs@.update(
                program.id - 1,
                spec_program_set_slot(old(self).state.programs@[program.id - 1], st, None),
            ));
        }
    }

    /// Stores a shader's source; nothing is sent until it is compiled.
    #[verifier::rlimit(50)]
    pub fn ShaderSource(&mut self, shader: &WebGLShader, source: String)
        requires
            old(self).valid(),
        ensures
            final(self).valid(),
            if old(self).lost {
                rejected(*old(self), *final(self), WebGLError::ContextLost)
            } else if !old(self).owns_shader(*shader) {
                rejected(*old(self), *final(self), WebGLError::InvalidOperation)
            } else {
                applied(
                    *old(self),
                    *final(self),
                    ContextState { shaders: final(self).state.shaders, ..old(self).state },
                    Seq::empty(),
                ) && final(self).state.shaders@.len() == old(self).state.shaders@.len() && final(self).state.shaders@[shader.id - 1].source@ == source@ && final(self).state.shaders@[shader.id - 1] == (ShaderState {
                    source: final(self).state.shaders@[shader.id - 1].source,
                    ..old(self).state.shaders@[shader.id - 1]
                }) && (forall|k: int|
                    0 <= k < old(self).state.shaders@.len() && k != shader.id - 1 ==> final(self).state.shaders@[k] == old(self).state.shaders@[k])
            },
    {
        if self.check_lost() {
            return ;
        }
        if !self.validate_shader_ownership(shader) {
            return self.webgl_error(WebGLError::InvalidOperation);
        }
        let idx = (shader.id - 1) as usize;
        self.state.shaders[idx].source = source;
    }

    /// Reads back a shader's stored source.
    pub fn GetShaderSource(&mut self, shader: &WebGLShader) -> (r: Option<String>)
        requires
            old(self).valid(),
        ensures
            final(self).valid(),
            if old(self).lost {
                rejected(*old(self), *final(self), WebGLError::ContextLost) && r is None
            } else if !old(self).owns_shader(*shader) {
                rejected(*old(self), *final(self), WebGLError::InvalidOperation) && r is None
            } else {
                unchanged(*old(self), *final(self)) && (r matches Some(src) && src@ == old(self).state.shaders@[shader.id - 1].source@)
            },
    {
        if self.check_lost() {
            return None;
        }
        if !self.validate_shader_ownership(shader) {
            self.webgl_error(WebGLError::InvalidOperation);
            return None;
        }
        let idx = (shader.id - 1) as usize;
        Some(self.state.shaders[idx].source.clone())
    }

    /// Marks a shader compiled with the compiler's verdict and asks the
    /// backend to compile its translated source. The compiler itself is
    /// outside this core.
    #[verifier::rlimit(50)]
    pub fn CompileShader(&mut self, shader: &WebGLShader, compile_ok: bool)
        requires
            old(self).valid(),
        ensures
            final(self).valid(),
            if old(self).lost {
                rejected(*old(self), *final(self), WebGLError::ContextLost)
            } else if !old(self).owns_shader(*shader) {
                rejected(*old(self), *final(self), WebGLError::InvalidOperation)
            } else {
                applied(
                    *old(self),
                    *final(self),
                    ContextState { shaders: final(self).state.shaders, ..old(self).state },
                    seq![WebGLCommand::CompileShader(shader.id)],
                ) && final(self).state.shaders@.len() == old(self).state.shaders@.len() && final(self).state.shaders@[shader.id - 1] == (ShaderState {
                    compiled: true,
                    compile_ok,
                    ..old(self).state.shaders@[shader.id - 1]
                }) && (forall|k: int|
                    0 <= k < old(self).state.shaders@.len() && k != shader.id - 1 ==> final(self).state.shaders@[k] == old(self).state.shaders@[k])
            },
    {
        if self.check_lost() {
            return ;
        }
        if !self.validate_shader_ownership(shader) {
            return self.webgl_error(WebGLError::InvalidOperation);
        }
        let idx = (shader.id - 1) as usize;
        self.state.shaders[idx].compiled = true;
        self.state.shaders[idx].compile_ok = compile_ok;
        self.send_command(WebGLCommand::CompileShader(shader.id));
    }

    /// Answers a shader parameter query from the tracked shader state; a
    /// deleted shader records `InvalidValue`.
    pub fn GetShaderParameter(&mut self, shader: &WebGLShader, param: u32) -> (r: ParameterAnswer)
        requires
            old(self).valid(),
        ensures
            final(self).valid(),
            if old(self).lost {
                rejected(*old(self), *final(self), WebGLError::ContextLost) && r
                    == ParameterAnswer::Rejected
            } else if !old(self).owns_shader(*shader) {
                rejected(*old(self), *final(self), WebGLError::InvalidOperation) && r
                    == ParameterAnswer::Rejected
            } else {
                let sh = old(self).state.shaders@[shader.id - 1];
                if sh.marked_for_deletion {
                    rejected(*old(self), *final(self), WebGLError::InvalidValue) && r
                        == ParameterAnswer::Rejected
                } else if param == constants::DELETE_STATUS {
                    unchanged(*old(self), *final(self)) && r == ParameterAnswer::Boolean(
                        sh.marked_for_deletion,
                    )
                } else if param == constants::COMPILE_STATUS {
                    unchanged(*old(self), *final(self)) && r == ParameterAnswer::Boolean(
                        sh.compiled && sh.compile_ok,
                    )
                } else if param == constants::SHADER_TYPE {
                    unchanged(*old(self), *final(self)) && r == ParameterAnswer::Uint(
                        sh.shader_type,
                    )
                } else {
                    rejected(*old(self), *final(self), WebGLError::InvalidEnum) && r
                        == ParameterAnswer::Rejected
                }
            },
    {
        if self.check_lost() {
            return ParameterAnswer::Rejected;
        }
        if !self.validate_shader_ownership(shader) {
            self.webgl_error(WebGLError::InvalidOperation);
            return ParameterAnswer::Rejected;
        }
        let idx = (shader.id - 1) as usize;
        if self.state.shaders[idx].marked_for_deletion {
            self.webgl_error(WebGLError::InvalidValue);
            return ParameterAnswer::Rejected;
        }
        match param {
            constants::DELETE_STATUS => ParameterAnswer::Boolean(
                self.state.shaders[idx].marked_for_deletion,
            ),
            constants::COMPILE_STATUS => ParameterAnswer::Boolean(
                self.state.shaders[idx].compiled && self.state.shaders[idx].compile_ok,
            ),
            constants::SHADER_TYPE => ParameterAnswer::Uint(self.state.shaders[idx].shader_type),
            _ => {
                self.webgl_error(WebGLError::InvalidEnum);
                ParameterAnswer::Rejected
            },
        }
    }

    /// Answers a program parameter query from the tracked program state;
    /// the validate status is a backend query.
    #[verifier::rlimit(50)]
    pub fn GetProgramParameter(&mut self, program: &WebGLProgram, param: u32) -> (r:
        ParameterAnswer)
        requires
            old(self).valid(),
        ensures
            final(self).valid(),
            if old(self).lost {
                rejected(*old(self), *final(self), WebGLError::ContextLost) && r
                    == ParameterAnswer::Rejected
            } else if !old(self).owns_program(*program) {
                rejected(*old(self), *final(self), WebGLError::InvalidOperation) && r
                    == ParameterAnswer::Rejected
            } else {
                let p = old(self).state.programs@[program.id - 1];
                if p.marked_for_deletion {
                    rejected(*old(self), *final(self), WebGLError::InvalidOperation) && r
                        == ParameterAnswer::Rejected
                } else if param == constants::DELETE_STATUS {
                    unchanged(*old(self), *final(self)) && r == ParameterAnswer::Boolean(
                        p.marked_for_deletion,
                    )
                } else if param == constants::LINK_STATUS {
                    unchanged(*old(self), *final(self)) && r == ParameterAnswer::Boolean(p.linked)
                } else if param == constants::VALIDATE_STATUS {
                    sent1(
                        *old(self),
                        *final(self),
                        WebGLCommand::GetProgramValidateStatus(program.id),
                    ) && r == ParameterAnswer::Query
                } else if param == constants::ATTACHED_SHADERS {
                    unchanged(*old(self), *final(self)) && r == ParameterAnswer::Uint(
                        ((if p.vertex_shader is Some {
                            1u32
                        } else {
                            0u32
                        }) + (if p.fragment_shader is Some {
                            1u32
                        } else {
                            0u32
                        })) as u32,
                    )
                } else if param == constants::ACTIVE_ATTRIBUTES {
                    unchanged(*old(self), *final(self)) && r == ParameterAnswer::Size(
                        p.active_attribs@.len() as usize,
                    )
                } else if param == constants::ACTIVE_UNIFORMS {
                    unchanged(*old(self), *final(self)) && r == ParameterAnswer::Size(
                        p.active_uniforms@.len() as usize,
                    )
                } else {
                    rejected(*old(self), *final(self), WebGLError::InvalidEnum) && r
                        == ParameterAnswer::Rejected
                }
            },
    {
        if self.check_lost() {
            return ParameterAnswer::Rejected;
        }
        if !self.validate_program_ownership(program) {
            self.webgl_error(WebGLError::InvalidOperation);
            return ParameterAnswer::Rejected;
        }
        let idx = (program.id - 1) as usize;
        if self.state.programs[idx].marked_for_deletion {
            self.webgl_error(WebGLError::InvalidOperation);
            return ParameterAnswer::Rejected;
        }
        match param {
            constants::DELETE_STATUS => ParameterAnswer::Boolean(
                self.state.programs[idx].marked_for_deletion,
            ),
            constants::LINK_STATUS => ParameterAnswer::Boolean(self.state.programs[idx].linked),
            constants::VALIDATE_STATUS => {
                self.send_command(WebGLCommand::GetProgramValidateStatus(program.id));
                ParameterAnswer::Query
            },
            constants::ATTACHED_SHADERS => {
                let v: u32 = if self.state.programs[idx].vertex_shader.is_some() {
                    1
                } else {
                    0
                };
                let f: u32 = if self.state.programs[idx].fragment_shader.is_some() {
                    1
                } else {
                    0
                };
                ParameterAnswer::Uint(v + f)
            },
            constants::ACTIVE_ATTRIBUTES => ParameterAnswer::Size(
                self.state.programs[idx].active_attribs.len(),
            ),
            constants::ACTIVE_UNIFORMS => ParameterAnswer::Size(
                self.state.programs[idx].active_uniforms.len(),
            ),
            _ => {
                self.webgl_error(WebGLError::InvalidEnum);
                ParameterAnswer::Rejected
            },
        }
    }

    /// Asks the backend to validate a program against its current state.
    pub fn ValidateProgram(&mut self, program: &WebGLProgram)
        requires
            old(self).valid(),
        ensures
            final(self).valid(),
            if old(self).lost {
                rejected(*old(self), *final(self), WebGLError::ContextLost)
            } else if !old(self).owns_program(*program) {
                rejected(*old(self), *final(self), WebGLError::InvalidOperation)
            } else {
                sent1(*old(self), *final(self), WebGLCommand::ValidateProgram(program.id))
            },
    {
        if self.check_lost() {
            return ;
        }
        if !self.validate_program_ownership(program) {
            return self.webgl_error(WebGLError::InvalidOperation);
        }
        self.send_command(WebGLCommand::ValidateProgram(program.id));
    }

    /// Reads one active uniform's reflection record; an index beyond the
    /// table records `InvalidValue`.
    pub fn GetActiveUniform(&mut self, program: &WebGLProgram, index: u32) -> (r: Option<
        ActiveUniformInfo,
    >)
        requires
            old(self).valid(),
        ensures
            final(self).valid(),
            if old(self).lost {
                rejected(*old(self), *final(self), WebGLError::ContextLost) && r is None
            } else if !old(self).owns_program(*program) {
                rejected(*old(self), *final(self), WebGLError::InvalidOperation) && r is None
            } else {
                let p = old(self).state.programs@[program.id - 1];
                if index >= p.active_uniforms@.len() {
                    rejected(*old(self), *final(self), WebGLError::InvalidValue) && r is None
                } else {
                    unchanged(*old(self), *final(self)) && (r matches Some(info) && info.name@
                        == p.active_uniforms@[index as int].name@ && info.size
                        == p.active_uniforms@[index as int].size && info.type_
                        == p.active_uniforms@[index as int].type_)
                }
            },
    {
        if self.check_lost() {
            return None;
        }
        if !self.validate_program_ownership(program) {
            self.webgl_error(WebGLError::InvalidOperation);
            return None;
        }
        let pidx = (program.id - 1) as usize;
        if (index as usize) >= self.state.programs[pidx].active_uniforms.len() {
            self.webgl_error(WebGLError::InvalidValue);
            return None;
        }
        let entry = &self.state.programs[pidx].active_uniforms[index as usize];
        Some(ActiveUniformInfo { name: entry.name.clone(), size: entry.size, type_: entry.type_ })
    }

    /// Reads one active attribute's reflection record; an index beyond
    /// the table records `InvalidValue`.
    pub fn GetActiveAttrib(&mut self, program: &WebGLProgram, index: u32) -> (r: Option<
        ActiveAttribInfo,
    >)
        requires
            old(self).valid(),
        ensures
            final(self).valid(),
            if old(self).lost {
                rejected(*old(self), *final(self), WebGLError::ContextLost) && r is None
            } else if !old(self).owns_program(*program) {
                rejected(*old(self), *final(self), WebGLError::InvalidOperation) && r is None
            } else {
                let p = old(self).state.programs@[program.id - 1];
                if index >= p.active_attribs@.len() {
                    rejected(*old(self), *final(self), WebGLError::InvalidValue) && r is None
                } else {
                    unchanged(*old(self), *final(self)) && (r matches Some(info) && info.name@
                        == p.active_attribs@[index as int].name@ && info.size
                        == p.active_attribs@[index as int].size && info.type_
                        == p.active_attribs@[index as int].type_ && info.location
                        == p.active_attribs@[index as int].location)
                }
            },
    {
        if self.check_lost() {
            return None;
        }
        if !self.validate_program_ownership(program) {
            self.webgl_error(WebGLError::InvalidOperation);
            return None;
        }
        let pidx = (program.id - 1) as usize;
        if (index as usize) >= self.state.programs[pidx].active_attribs.len() {
            self.webgl_error(WebGLError::InvalidValue);
            return None;
        }
        let entry = &self.state.programs[pidx].active_attribs[index as usize];
        Some(
            ActiveAttribInfo {
                name: entry.name.clone(),
                size: entry.size,
                type_: entry.type_,
                location: entry.location,
            },
        )
    }

    /// The location of an active attribute by its exact name, or minus
    /// one where no attribute carries the name. The program must be
    /// linked and live.
    pub fn GetAttribLocation(&mut self, program: &WebGLProgram, name: String) -> (r: i32)
        requires
            old(self).valid(),
        ensures
            final(self).valid(),
            if old(self).lost {
                rejected(*old(self), *final(self), WebGLError::ContextLost) && r == -1
            } else if !old(self).owns_program(*program) {
                rejected(*old(self), *final(self), WebGLError::InvalidOperation) && r == -1
            } else if old(self).state.programs@[program.id - 1].marked_for_deletion || !old(self).state.programs@[program.id - 1].linked {
                rejected(*old(self), *final(self), WebGLError::InvalidOperation) && r == -1
            } else {
                let p = old(self).state.programs@[program.id - 1];
                unchanged(*old(self), *final(self)) && (if r == -1 {
                    forall|i: int|
                        0 <= i < p.active_attribs@.len() ==> #[trigger] p.active_attribs@[i].name@
                            != name@
                } else {
                    exists|i: int|
                        0 <= i < p.active_attribs@.len() && #[trigger] p.active_attribs@[i].name@
                            == name@ && p.active_attribs@[i].location == r
                })
            },
    {
        if self.check_lost() {
            return -1;
        }
        if !self.validate_program_ownership(program) {
            self.webgl_error(WebGLError::InvalidOperation);
            return -1;
        }
        let idx = (program.id - 1) as usize;
        if self.state.programs[idx].marked_for_deletion || !self.state.programs[idx].linked {
            self.webgl_error(WebGLError::InvalidOperation);
            return -1;
        }
        let ghost pre = *self;
        let n = self.state.programs[idx].active_attribs.len();
        let mut i: usize = 0;
        while i < n
            invariant
                i <= n,
                *self == pre,
                pre == *old(self),
                pre.valid(),
                !pre.lost,
                pre.owns_program(*program),
                0 < program.id,
                (program.id - 1) as usize == idx,
                idx < self.state.programs@.len(),
                !self.state.programs@[idx as int].marked_for_deletion,
                self.state.programs@[idx as int].linked,
                n == self.state.programs@[idx as int].active_attribs@.len(),
                forall|j: int|
                    0 <= j < i ==> #[trigger] self.state.programs@[idx as int].active_attribs@[j].name@
                        != name@,
            decreases n - i,
        {
            let entry = &self.state.programs[idx].active_attribs[i];
            if attrib_name_eq(&entry.name, &name) {
                return entry.location;
            }
            i = i + 1;
        }
        -1
    }
}

/// String equality on the character level.
fn attrib_name_eq(a: &String, b: &String) -> (r: bool)
    ensures
        r == (a@ == b@),
{
    a.eq(b)
}

} // verus!
