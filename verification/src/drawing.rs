//! The draw call validator.
//!
//! A draw with zero count or zero instance count is a defined no-op:
//! success, no command, no framebuffer mutation.

use vstd::prelude::*;

use crate::command::WebGLCommand;
use crate::constants;
use crate::context::{
    rejected, sent1, spec_validate_framebuffer, unchanged, ContextState, WebGLRenderingContext,
};
use crate::error::WebGLError;
use crate::objects::{VertexArrayState, VertexAttribData};

verus! {

/// The closed set of primitive topologies.
pub open spec fn spec_is_draw_mode(mode: u32) -> bool {
    ||| mode == constants::POINTS
    ||| mode == constants::LINE_STRIP
    ||| mode == constants::LINE_LOOP
    ||| mode == constants::LINES
    ||| mode == constants::TRIANGLE_STRIP
    ||| mode == constants::TRIANGLE_FAN
    ||| mode == constants::TRIANGLES
}

/// The closed set of primitive topologies.
fn is_draw_mode(mode: u32) -> (r: bool)
    ensures
        r == spec_is_draw_mode(mode),
{
    match mode {
        constants::POINTS | constants::LINE_STRIP | constants::LINE_LOOP | constants::LINES
            | constants::TRIANGLE_STRIP | constants::TRIANGLE_FAN | constants::TRIANGLES => true,
        _ => false,
    }
}

/// Bytes one element of an attribute data type occupies.
pub open spec fn spec_attrib_type_size(t: u32) -> int {
    if t == constants::BYTE || t == constants::UNSIGNED_BYTE {
        1
    } else if t == constants::SHORT || t == constants::UNSIGNED_SHORT {
        2
    } else {
        4
    }
}

/// How many vertices an attribute binding can source from a buffer of
/// the given byte capacity: one for the first element, then one more per
/// effective stride.
pub open spec fn spec_max_vertices(d: VertexAttribData, cap: int) -> int {
    let elem = d.size * spec_attrib_type_size(d.type_);
    if elem <= 0 {
        0
    } else {
        let stride_eff: int = if d.stride == 0 {
            elem
        } else {
            d.stride as int
        };
        if cap >= d.offset + elem {
            1 + (cap - d.offset - elem) / stride_eff
        } else {
            0
        }
    }
}

/// The vertices an attribute must supply for the draw: the vertex range
/// for per-vertex attributes, one per `divisor` instances for instanced
/// ones.
pub open spec fn spec_attrib_needed(d: VertexAttribData, required: int, instances: int) -> int {
    if d.divisor == 0 {
        required
    } else {
        (instances + d.divisor - 1) / (d.divisor as int)
    }
}

/// One attribute slot supports the draw: if it is enabled as an array it
/// has a buffer bound, and that buffer's capacity covers the vertices
/// the draw reads through it.
pub open spec fn spec_attrib_ok(
    d: VertexAttribData,
    buffers: Seq<crate::objects::BufferState>,
    required: int,
    instances: int,
) -> bool {
    d.enabled_as_array ==> (d.buffer is Some && spec_attrib_needed(d, required, instances)
        <= spec_max_vertices(d, buffers[d.buffer->0 - 1].capacity as int))
}

/// Every attribute the program uses supports the draw's vertex range and
/// instance count.
pub open spec fn spec_attribs_cover(
    attribs: Seq<VertexAttribData>,
    active: Seq<crate::objects::ActiveAttribInfo>,
    buffers: Seq<crate::objects::BufferState>,
    required: int,
    instances: int,
) -> bool {
    forall|i: int|
        0 <= i < active.len() ==> spec_attrib_ok(
            #[trigger] attribs[active[i].location as int],
            buffers,
            required,
            instances,
        )
}

/// The index size of an element type, where the type is legal for
/// indexed draws under the enabled capability sets.
pub open spec fn spec_index_size(ext: crate::extensions::WebGLExtensions, type_: u32) -> Option<
    u64,
> {
    if type_ == constants::UNSIGNED_BYTE {
        Some(1)
    } else if type_ == constants::UNSIGNED_SHORT {
        Some(2)
    } else if type_ == constants::UNSIGNED_INT && ext.oes_element_index_uint {
        Some(4)
    } else {
        None
    }
}

impl WebGLRenderingContext {
    /// Whether one attribute slot supports the draw.
    fn attrib_ok(&self, d: VertexAttribData, required: u64, instances: u64) -> (r: bool)
        requires
            required <= 0x1_0000_0000u64,
            instances <= 0x8000_0000u64,
            crate::context::opt_id_in(d.buffer, self.state.buffers@.len()),
        ensures
            r == spec_attrib_ok(d, self.state.buffers@, required as int, instances as int),
    {
        if !d.enabled_as_array {
            return true;
        }
        let b = match d.buffer {
            Some(b) => b,
            None => return false,
        };
        let needed: u64 = if d.divisor == 0 {
            required
        } else {
            (instances + (d.divisor as u64) - 1) / (d.divisor as u64)
        };
        let cap: u64 = self.state.buffers[(b - 1) as usize].capacity as u64;
        let type_size: u64 = match d.type_ {
            constants::BYTE | constants::UNSIGNED_BYTE => 1,
            constants::SHORT | constants::UNSIGNED_SHORT => 2,
            _ => 4,
        };
        let elem: u64 = (d.size as u64) * type_size;
        proof {
            assert(elem == d.size * spec_attrib_type_size(d.type_));
            assert(elem <= 0x4_0000_0000u64) by (nonlinear_arith)
                requires
                    elem == (d.size as u64) * type_size,
                    d.size <= 0xFFFF_FFFFu32,
                    type_size <= 4,
            ;
        }
        let max: u64 = if elem == 0 {
            0
        } else {
            let stride_eff: u64 = if d.stride == 0 {
                elem
            } else {
                d.stride as u64
            };
            if cap >= (d.offset as u64) + elem {
                let q: u64 = (cap - (d.offset as u64) - elem) / stride_eff;
                proof {
                    assert(q <= cap - (d.offset as u64) - elem) by (nonlinear_arith)
                        requires
                            stride_eff >= 1,
                            q == (cap - (d.offset as u64) - elem) as int / stride_eff as int,
                            cap >= (d.offset as u64) + elem,
                    ;
                }
                1 + q
            } else {
                0
            }
        };
        needed <= max
    }

    /// Whether every attribute the current program uses supports the
    /// draw's vertex range and instance count in the current vertex
    /// array object.
    fn attribs_cover(&self, pid: u32, required: u64, instances: u64) -> (r: bool)
        requires
            self.valid(),
            0 < pid <= self.state.programs@.len(),
            self.state.programs@[pid - 1].linked,
            required <= 0x1_0000_0000u64,
            instances <= 0x8000_0000u64,
        ensures
            r == spec_attribs_cover(
                self.state.vaos@[self.state.current_vao as int].attribs@,
                self.state.programs@[pid - 1].active_attribs@,
                self.state.buffers@,
                required as int,
                instances as int,
            ),
    {
        let cv = self.state.current_vao as usize;
        let pidx = (pid - 1) as usize;
        let n = self.state.programs[pidx].active_attribs.len();
        let mut i: usize = 0;
        while i < n
            invariant
                i <= n,
                self.valid(),
                required <= 0x1_0000_0000u64,
                instances <= 0x8000_0000u64,
                cv == self.state.current_vao as usize,
                0 < pid <= self.state.programs@.len(),
                pidx == (pid - 1) as usize,
                pidx < self.state.programs@.len(),
                self.state.programs@[pidx as int].linked,
                n == self.state.programs@[pidx as int].active_attribs@.len(),
                forall|j: int|
                    0 <= j < i ==> spec_attrib_ok(
                        #[trigger] self.state.vaos@[cv as int].attribs@[self.state.programs@[pidx as int].active_attribs@[j].location as int],
                        self.state.buffers@,
                        required as int,
                        instances as int,
                    ),
            decreases n - i,
        {
            let loc = self.state.programs[pidx].active_attribs[i].location;
            let a = self.state.vaos[cv].attribs[loc as usize];
            if !self.attrib_ok(a, required, instances) {
                proof {
                    let attribs = self.state.vaos@[cv as int].attribs@;
                    let active = self.state.programs@[pidx as int].active_attribs@;
                    assert(!spec_attrib_ok(
                        attribs[active[i as int].location as int],
                        self.state.buffers@,
                        required as int,
                        instances as int,
                    ));
                }
                return false;
            }
            i = i + 1;
        }
        true
    }

    /// Validates and encodes an array draw, instanced when the instance
    /// count is above one. Checks, in order: the topology enum, the sign
    /// of every count, that a program is installed, that the vertex range
    /// fits in the index space, that every used array attribute is backed
    /// by a buffer, and that the bound framebuffer is usable. A zero
    /// count or zero instance count is a defined no-op.
    #[verifier::rlimit(50)]
    pub fn draw_arrays_instanced(&mut self, mode: u32, first: i32, count: i32, primcount: i32)
        -> (r: Result<(), WebGLError>)
        requires
            old(self).valid(),
        ensures
            final(self).valid(),
            if old(self).lost {
                rejected(*old(self), *final(self), WebGLError::ContextLost) && r is Ok
            } else {
                ({
                    let s = old(self).state;
                    let verdict = spec_draw_arrays_verdict(*old(self), mode, first, count,
                    primcount);
                    match verdict {
                        Err(e) => r == Result::<(), WebGLError>::Err(e) && unchanged(
                            *old(self),
                            *final(self),
                        ),
                        Ok(()) => r is Ok && (if count == 0 || primcount == 0 {
                            unchanged(*old(self), *final(self))
                        } else if primcount == 1 {
                            sent1(
                                *old(self),
                                *final(self),
                                WebGLCommand::DrawArrays { mode, first, count },
                            )
                        } else {
                            sent1(
                                *old(self),
                                *final(self),
                                WebGLCommand::DrawArraysInstanced {
                                    mode,
                                    first,
                                    count,
                                    primcount,
                                },
                            )
                        }),
                    }
                })
            },
    {
        if self.check_lost() {
            return Ok(());
        }
        if !is_draw_mode(mode) {
            return Err(WebGLError::InvalidEnum);
        }
        if first < 0 || count < 0 || primcount < 0 {
            return Err(WebGLError::InvalidValue);
        }
        let pid = match self.state.current_program {
            Some(pid) => pid,
            None => return Err(WebGLError::InvalidOperation),
        };
        if count > 0 && (first as i64) + (count as i64) > (i32::MAX as i64) {
            return Err(WebGLError::InvalidOperation);
        }
        if !self.state.programs[(pid - 1) as usize].linked {
            return Err(WebGLError::InvalidOperation);
        }
        let required: u64 = if count > 0 {
            (first as u64) + (count as u64)
        } else {
            0
        };
        if !self.attribs_cover(pid, required, primcount as u64) {
            return Err(WebGLError::InvalidOperation);
        }
        match self.validate_framebuffer() {
            Err(e) => return Err(e),
            Ok(()) => (),
        }
        if count == 0 || primcount == 0 {
            return Ok(());
        }
        if primcount == 1 {
            self.send_command(WebGLCommand::DrawArrays { mode, first, count });
        } else {
            self.send_command(WebGLCommand::DrawArraysInstanced { mode, first, count, primcount });
        }
        Ok(())
    }

    /// An array draw of one instance; a validation failure is recorded in
    /// the error register.
    #[verifier::rlimit(50)]
    pub fn DrawArrays(&mut self, mode: u32, first: i32, count: i32)
        requires
            old(self).valid(),
        ensures
            final(self).valid(),
            if old(self).lost {
                rejected(*old(self), *final(self), WebGLError::ContextLost)
            } else {
                match spec_draw_arrays_verdict(*old(self), mode, first, count, 1) {
                    Err(e) => rejected(*old(self), *final(self), e),
                    Ok(()) => {
                        if count == 0 {
                            unchanged(*old(self), *final(self))
                        } else {
                            sent1(
                                *old(self),
                                *final(self),
                                WebGLCommand::DrawArrays { mode, first, count },
                            )
                        }
                    },
                }
            },
    {
        match self.draw_arrays_instanced(mode, first, count, 1) {
            Ok(()) => (),
            Err(e) => self.webgl_error(e),
        }
    }

    /// Validates and encodes an indexed draw, instanced when the instance
    /// count is above one. Beyond the array-draw checks: the index type
    /// must have a known size, the byte offset must be a multiple of that
    /// size, an element array buffer must be bound under the current
    /// vertex array object, and its capacity must cover the indices read.
    #[verifier::rlimit(50)]
    pub fn draw_elements_instanced(
        &mut self,
        mode: u32,
        count: i32,
        type_: u32,
        offset: i64,
        primcount: i32,
    ) -> (r: Result<(), WebGLError>)
        requires
            old(self).valid(),
        ensures
            final(self).valid(),
            if old(self).lost {
                rejected(*old(self), *final(self), WebGLError::ContextLost) && r is Ok
            } else {
                ({
                    let verdict = spec_draw_elements_verdict(*old(self), mode, count, type_,
                    offset, primcount);
                    match verdict {
                        Err(e) => r == Result::<(), WebGLError>::Err(e) && unchanged(
                            *old(self),
                            *final(self),
                        ),
                        Ok(()) => r is Ok && (if count == 0 || primcount == 0 {
                            unchanged(*old(self), *final(self))
                        } else if primcount == 1 {
                            sent1(
                                *old(self),
                                *final(self),
                                WebGLCommand::DrawElements {
                                    mode,
                                    count,
                                    type_,
                                    offset: offset as u32,
                                },
                            )
                        } else {
                            sent1(
                                *old(self),
                                *final(self),
                                WebGLCommand::DrawElementsInstanced {
                                    mode,
                                    count,
                                    type_,
                                    offset: offset as u32,
                                    primcount,
                                },
                            )
                        }),
                    }
                })
            },
    {
        if self.check_lost() {
            return Ok(());
        }
        if !is_draw_mode(mode) {
            return Err(WebGLError::InvalidEnum);
        }
        if count < 0 || offset < 0 || primcount < 0 {
            return Err(WebGLError::InvalidValue);
        }
        let type_size: u64 = match type_ {
            constants::UNSIGNED_BYTE => 1,
            constants::UNSIGNED_SHORT => 2,
            constants::UNSIGNED_INT => {
                if self.state.extensions.is_element_index_uint_enabled() {
                    4
                } else {
                    return Err(WebGLError::InvalidEnum);
                }
            },
            _ => return Err(WebGLError::InvalidEnum),
        };
        if (offset as u64) % type_size != 0 {
            return Err(WebGLError::InvalidOperation);
        }
        if offset > u32::MAX as i64 {
            return Err(WebGLError::InvalidOperation);
        }
        let pid = match self.state.current_program {
            Some(pid) => pid,
            None => return Err(WebGLError::InvalidOperation),
        };
        let cv = self.state.current_vao as usize;
        let elem = match self.state.vaos[cv].element_array_buffer {
            Some(b) => b,
            None => return Err(WebGLError::InvalidOperation),
        };
        if count > 0 && primcount > 0 {
            let needed: u64 = (offset as u64) + (count as u64) * type_size;
            if needed > self.state.buffers[(elem - 1) as usize].capacity as u64 {
                return Err(WebGLError::InvalidOperation);
            }
        }
        if !self.state.programs[(pid - 1) as usize].linked {
            return Err(WebGLError::InvalidOperation);
        }
        if !self.attribs_cover(pid, 0, primcount as u64) {
            return Err(WebGLError::InvalidOperation);
        }
        match self.validate_framebuffer() {
            Err(e) => return Err(e),
            Ok(()) => (),
        }
        if count == 0 || primcount == 0 {
            return Ok(());
        }
        if primcount == 1 {
            self.send_command(
                WebGLCommand::DrawElements { mode, count, type_, offset: offset as u32 },
            );
        } else {
            self.send_command(
                WebGLCommand::DrawElementsInstanced {
                    mode,
                    count,
                    type_,
                    offset: offset as u32,
                    primcount,
                },
            );
        }
        Ok(())
    }

    /// An indexed draw of one instance; a validation failure is recorded
    /// in the error register.
    #[verifier::rlimit(50)]
    pub fn DrawElements(&mut self, mode: u32, count: i32, type_: u32, offset: i64)
        requires
            old(self).valid(),
        ensures
            final(self).valid(),
            if old(self).lost {
                rejected(*old(self), *final(self), WebGLError::ContextLost)
            } else {
                match spec_draw_elements_verdict(*old(self), mode, count, type_, offset, 1) {
                    Err(e) => rejected(*old(self), *final(self), e),
                    Ok(()) => {
                        if count == 0 {
                            unchanged(*old(self), *final(self))
                        } else {
                            sent1(
                                *old(self),
                                *final(self),
                                WebGLCommand::DrawElements {
                                    mode,
                                    count,
                                    type_,
                                    offset: offset as u32,
                                },
                            )
                        }
                    },
                }
            },
    {
        match self.draw_elements_instanced(mode, count, type_, offset, 1) {
            Ok(()) => (),
            Err(e) => self.webgl_error(e),
        }
    }

    /// Sets the instancing divisor of one attribute slot of the current
    /// vertex array object; an index beyond the attribute limit is
    /// rejected with `InvalidValue`.
    pub fn vertex_attrib_divisor(&mut self, index: u32, divisor: u32)
        requires
            old(self).valid(),
        ensures
            final(self).valid(),
            if old(self).lost {
                rejected(*old(self), *final(self), WebGLError::ContextLost)
            } else if index >= old(self).limits.max_vertex_attribs {
                rejected(*old(self), *final(self), WebGLError::InvalidValue)
            } else {
                let cv = old(self).state.current_vao as int;
                let vao = old(self).state.vaos@[cv];
                crate::context::applied(
                    *old(self),
                    *final(self),
                    crate::context::ContextState {
                        vaos: final(self).state.vaos,
                        ..old(self).state
                    },
                    seq![WebGLCommand::VertexAttribDivisor { index, divisor }],
                ) && final(self).state.vaos@ == old(self).state.vaos@.update(
                    cv,
                    crate::objects::VertexArrayState {
                        attribs: final(self).state.vaos@[cv].attribs,
                        ..vao
                    },
                ) && final(self).state.vaos@[cv].attribs@ == vao.attribs@.update(
                    index as int,
                    VertexAttribData { divisor, ..vao.attribs@[index as int] },
                )
            },
    {
        if self.check_lost() {
            return ;
        }
        if index >= self.limits.max_vertex_attribs {
            return self.webgl_error(WebGLError::InvalidValue);
        }
        let cv = self.state.current_vao as usize;
        let ghost pre = *self;
        let i = index as usize;
        let a = self.state.vaos[cv].attribs[i];
        self.state.vaos[cv].attribs.set(i, VertexAttribData { divisor, ..a });
        self.send_command(WebGLCommand::VertexAttribDivisor { index, divisor });
        proof {
            assert(self.state.vaos@ =~= pre.state.vaos@.update(
                cv as int,
                crate::objects::VertexArrayState {
                    attribs: self.state.vaos@[cv as int].attribs,
                    ..pre.state.vaos@[cv as int]
                },
            ));
        }
    }

    /// Enables one attribute slot of the current vertex array object as
    /// an array; an index beyond the attribute limit is rejected with
    /// `InvalidValue`.
    pub fn EnableVertexAttribArray(&mut self, attrib_id: u32)
        requires
            old(self).valid(),
        ensures
            final(self).valid(),
            spec_set_enabled(*old(self), *final(self), attrib_id, true),
    {
        if self.check_lost() {
            return ;
        }
        if attrib_id >= self.limits.max_vertex_attribs {
            return self.webgl_error(WebGLError::InvalidValue);
        }
        let cv = self.state.current_vao as usize;
        let ghost pre = *self;
        let i = attrib_id as usize;
        let a = self.state.vaos[cv].attribs[i];
        self.state.vaos[cv].attribs.set(i, VertexAttribData { enabled_as_array: true, ..a });
        self.send_command(WebGLCommand::EnableVertexAttribArray(attrib_id));
        proof {
            assert(self.state.vaos@ =~= pre.state.vaos@.update(
                cv as int,
                crate::objects::VertexArrayState {
                    attribs: self.state.vaos@[cv as int].attribs,
                    ..pre.state.vaos@[cv as int]
                },
            ));
        }
    }

    /// Disables one attribute slot of the current vertex array object;
    /// an index beyond the attribute limit is rejected with
    /// `InvalidValue`.
    pub fn DisableVertexAttribArray(&mut self, attrib_id: u32)
        requires
            old(self).valid(),
        ensures
            final(self).valid(),
            spec_set_enabled(*old(self), *final(self), attrib_id, false),
    {
        if self.check_lost() {
            return ;
        }
        if attrib_id >= self.limits.max_vertex_attribs {
            return self.webgl_error(WebGLError::InvalidValue);
        }
        let cv = self.state.current_vao as usize;
        let ghost pre = *self;
        let i = attrib_id as usize;
        let a = self.state.vaos[cv].attribs[i];
        self.state.vaos[cv].attribs.set(i, VertexAttribData { enabled_as_array: false, ..a });
        self.send_command(WebGLCommand::DisableVertexAttribArray(attrib_id));
        proof {
            assert(self.state.vaos@ =~= pre.state.vaos@.update(
                cv as int,
                crate::objects::VertexArrayState {
                    attribs: self.state.vaos@[cv as int].attribs,
                    ..pre.state.vaos@[cv as int]
                },
            ));
        }
    }
}

impl WebGLRenderingContext {
    /// Points one attribute slot of the current vertex array object at
    /// the bound array buffer. Sizes outside one to four, strides
    /// outside zero to 255, negative offsets and offsets beyond the
    /// 32-bit command space are rejected with `InvalidValue`; a data
    /// type outside the closed set with `InvalidEnum`; an offset or
    /// stride that is not a multiple of the type size, or no bound
    /// array buffer, with `InvalidOperation`.
    pub fn VertexAttribPointer(
        &mut self,
        index: u32,
        size: i32,
        type_: u32,
        normalized: bool,
        stride: i32,
        offset: i64,
    )
        requires
            old(self).valid(),
        ensures
            final(self).valid(),
            if old(self).lost {
                rejected(*old(self), *final(self), WebGLError::ContextLost)
            } else if index >= old(self).limits.max_vertex_attribs {
                rejected(*old(self), *final(self), WebGLError::InvalidValue)
            } else if size < 1 || size > 4 || stride < 0 || stride > 255 || offset < 0 || offset
                > u32::MAX {
                rejected(*old(self), *final(self), WebGLError::InvalidValue)
            } else if !spec_is_attrib_type(type_) {
                rejected(*old(self), *final(self), WebGLError::InvalidEnum)
            } else if offset as int % spec_attrib_type_size(type_) != 0 || stride as int
                % spec_attrib_type_size(type_) != 0 {
                rejected(*old(self), *final(self), WebGLError::InvalidOperation)
            } else if old(self).state.bound_array_buffer is None {
                rejected(*old(self), *final(self), WebGLError::InvalidOperation)
            } else {
                spec_attrib_pointer_applied(
                    *old(self),
                    *final(self),
                    index,
                    size as u32,
                    type_,
                    normalized,
                    stride as u32,
                    offset as u32,
                )
            },
    {
        if self.check_lost() {
            return ;
        }
        if index >= self.limits.max_vertex_attribs {
            return self.webgl_error(WebGLError::InvalidValue);
        }
        if size < 1 || size > 4 || stride < 0 || stride > 255 || offset < 0 || offset
            > u32::MAX as i64 {
            return self.webgl_error(WebGLError::InvalidValue);
        }
        let type_size: i64 = match type_ {
            constants::BYTE | constants::UNSIGNED_BYTE => 1,
            constants::SHORT | constants::UNSIGNED_SHORT => 2,
            constants::FLOAT => 4,
            _ => return self.webgl_error(WebGLError::InvalidEnum),
        };
        if offset % type_size != 0 || (stride as i64) % type_size != 0 {
            return self.webgl_error(WebGLError::InvalidOperation);
        }
        if self.state.bound_array_buffer.is_none() {
            return self.webgl_error(WebGLError::InvalidOperation);
        }
        self.attrib_pointer_inner(index, size as u32, type_, normalized, stride as u32,
        offset as u32);
    }

    /// The mutation half of `VertexAttribPointer`, once validation has
    /// passed.
    #[verifier::rlimit(100)]
    fn attrib_pointer_inner(
        &mut self,
        index: u32,
        size: u32,
        type_: u32,
        normalized: bool,
        stride: u32,
        offset: u32,
    )
        requires
            old(self).valid(),
            !old(self).lost,
            index < old(self).limits.max_vertex_attribs,
            old(self).state.bound_array_buffer is Some,
        ensures
            final(self).valid(),
            spec_attrib_pointer_applied(
                *old(self),
                *final(self),
                index,
                size,
                type_,
                normalized,
                stride,
                offset,
            ),
    {
        let ghost pre = *self;
        let cv = self.state.current_vao as usize;
        let i = index as usize;
        let old_d = self.state.vaos[cv].attribs[i];
        let ab = match self.state.bound_array_buffer {
            Some(ab) => ab,
            None => return ,  // unreachable: a binding is required above
        };
        self.ref_buffer(ab);
        let new_d = VertexAttribData {
            enabled_as_array: old_d.enabled_as_array,
            size,
            type_,
            normalized,
            stride,
            offset,
            buffer: Some(ab),
            divisor: old_d.divisor,
        };
        self.state.vaos[cv].attribs.set(i, new_d);
        self.send_command(
            WebGLCommand::VertexAttribPointer(index, size, type_, normalized, stride, offset),
        );
        match old_d.buffer {
            Some(ob) => self.unref_buffer(ob),
            None => (),
        }
        proof {
            let s = pre.state;
            let bufs1 = s.buffers@.update(ab - 1, crate::buffers::spec_buf_ref(s.buffers@[ab - 1]));
            assert(self.state.buffers@ =~= (match old_d.buffer {
                Some(ob) => bufs1.update(ob - 1, crate::buffers::spec_buf_unref(bufs1[ob - 1], ob).0),
                None => bufs1,
            }));
            assert(self.state.vaos@ =~= s.vaos@.update(
                cv as int,
                VertexArrayState {
                    attribs: self.state.vaos@[cv as int].attribs,
                    ..s.vaos@[cv as int]
                },
            ));
            assert(self.state.vaos@[cv as int].attribs@ =~= s.vaos@[cv as int].attribs@.update(
                index as int,
                new_d,
            ));
            assert(self.outbox@ =~= pre.outbox@ + seq![
                WebGLCommand::VertexAttribPointer(index, size, type_, normalized, stride, offset),
            ] + (match old_d.buffer {
                Some(ob) => crate::buffers::spec_buf_unref(bufs1[ob - 1], ob).1,
                None => Seq::empty(),
            }));
            assert forall|k: int| 0 <= k < self.state.vaos@.len() implies crate::context::vao_wf(
                #[trigger] self.state.vaos@[k],
                self.state,
                self.limits,
            ) by {
                let v = self.state.vaos@[k];
                assert(self.state.buffers@.len() == s.buffers@.len());
                if k == cv as int {
                    assert forall|i2: int|
                        0 <= i2 < v.attribs@.len() implies crate::context::opt_id_in(
                        #[trigger] v.attribs@[i2].buffer,
                        self.state.buffers@.len(),
                    ) by {
                        if i2 != index as int {
                            assert(v.attribs@[i2] == s.vaos@[k].attribs@[i2]);
                            assert(crate::context::opt_id_in(
                                s.vaos@[k].attribs@[i2].buffer,
                                s.buffers@.len(),
                            ));
                        }
                    }
                } else {
                    assert(v == s.vaos@[k]);
                    assert(crate::context::vao_wf(v, s, pre.limits));
                }
            }
        }
    }
}

impl WebGLRenderingContext {
    /// Sets a constant vertex attribute from four IEEE-754 bit patterns.
    /// The zero slot is cached for resize resynchronization. An index
    /// beyond the attribute limit is rejected with `InvalidValue`.
    pub fn vertex_attrib(&mut self, indx: u32, x: u32, y: u32, z: u32, w: u32)
        requires
            old(self).valid(),
        ensures
            final(self).valid(),
            spec_vertex_attrib_post(*old(self), *final(self), indx, x, y, z, w),
    {
        if self.check_lost() {
            return ;
        }
        if indx >= self.limits.max_vertex_attribs {
            return self.webgl_error(WebGLError::InvalidValue);
        }
        if indx == 0 {
            self.state.current_vertex_attrib_0 = (x, y, z, w);
        }
        self.send_command(WebGLCommand::VertexAttrib(indx, x, y, z, w));
    }

    /// Sets a constant vertex attribute from one component; the rest
    /// take their defaults.
    pub fn VertexAttrib1f(&mut self, indx: u32, x: u32)
        requires
            old(self).valid(),
        ensures
            final(self).valid(),
            spec_vertex_attrib_post(
                *old(self),
                *final(self),
                indx,
                x,
                crate::floatbits::ZERO_BITS,
                crate::floatbits::ZERO_BITS,
                crate::floatbits::ONE_BITS,
            ),
    {
        self.vertex_attrib(indx, x, crate::floatbits::ZERO_BITS, crate::floatbits::ZERO_BITS,
        crate::floatbits::ONE_BITS);
    }

    /// Sets a constant vertex attribute from two components.
    pub fn VertexAttrib2f(&mut self, indx: u32, x: u32, y: u32)
        requires
            old(self).valid(),
        ensures
            final(self).valid(),
            spec_vertex_attrib_post(
                *old(self),
                *final(self),
                indx,
                x,
                y,
                crate::floatbits::ZERO_BITS,
                crate::floatbits::ONE_BITS,
            ),
    {
        self.vertex_attrib(indx, x, y, crate::floatbits::ZERO_BITS, crate::floatbits::ONE_BITS);
    }

    /// Sets a constant vertex attribute from three components.
    pub fn VertexAttrib3f(&mut self, indx: u32, x: u32, y: u32, z: u32)
        requires
            old(self).valid(),
        ensures
            final(self).valid(),
            spec_vertex_attrib_post(
                *old(self),
                *final(self),
                indx,
                x,
                y,
                z,
                crate::floatbits::ONE_BITS,
            ),
    {
        self.vertex_attrib(indx, x, y, z, crate::floatbits::ONE_BITS);
    }

    /// Sets a constant vertex attribute from four components.
    pub fn VertexAttrib4f(&mut self, indx: u32, x: u32, y: u32, z: u32, w: u32)
        requires
            old(self).valid(),
        ensures
            final(self).valid(),
            spec_vertex_attrib_post(*old(self), *final(self), indx, x, y, z, w),
    {
        self.vertex_attrib(indx, x, y, z, w);
    }

    /// Sets a constant vertex attribute from a one-element list; a
    /// shorter list is rejected with `InvalidValue`.
    pub fn VertexAttrib1fv(&mut self, indx: u32, v: Vec<u32>)
        requires
            old(self).valid(),
        ensures
            final(self).valid(),
            if !old(self).lost && v@.len() < 1 {
                rejected(*old(self), *final(self), WebGLError::InvalidValue)
            } else {
                spec_vertex_attrib_post(
                    *old(self),
                    *final(self),
                    indx,
                    v@[0],
                    crate::floatbits::ZERO_BITS,
                    crate::floatbits::ZERO_BITS,
                    crate::floatbits::ONE_BITS,
                )
            },
    {
        if self.check_lost() {
            return ;
        }
        if v.len() < 1 {
            return self.webgl_error(WebGLError::InvalidValue);
        }
        self.vertex_attrib(indx, v[0], crate::floatbits::ZERO_BITS, crate::floatbits::ZERO_BITS,
        crate::floatbits::ONE_BITS);
    }

    /// Sets a constant vertex attribute from a two-element list.
    pub fn VertexAttrib2fv(&mut self, indx: u32, v: Vec<u32>)
        requires
            old(self).valid(),
        ensures
            final(self).valid(),
            if !old(self).lost && v@.len() < 2 {
                rejected(*old(self), *final(self), WebGLError::InvalidValue)
            } else {
                spec_vertex_attrib_post(
                    *old(self),
                    *final(self),
                    indx,
                    v@[0],
                    v@[1],
                    crate::floatbits::ZERO_BITS,
                    crate::floatbits::ONE_BITS,
                )
            },
    {
        if self.check_lost() {
            return ;
        }
        if v.len() < 2 {
            return self.webgl_error(WebGLError::InvalidValue);
        }
        self.vertex_attrib(indx, v[0], v[1], crate::floatbits::ZERO_BITS,
        crate::floatbits::ONE_BITS);
    }

    /// Sets a constant vertex attribute from a three-element list.
    pub fn VertexAttrib3fv(&mut self, indx: u32, v: Vec<u32>)
        requires
            old(self).valid(),
        ensures
            final(self).valid(),
            if !old(self).lost && v@.len() < 3 {
                rejected(*old(self), *final(self), WebGLError::InvalidValue)
            } else {
                spec_vertex_attrib_post(
                    *old(self),
                    *final(self),
                    indx,
                    v@[0],
                    v@[1],
                    v@[2],
                    crate::floatbits::ONE_BITS,
                )
            },
    {
        if self.check_lost() {
            return ;
        }
        if v.len() < 3 {
            return self.webgl_error(WebGLError::InvalidValue);
        }
        self.vertex_attrib(indx, v[0], v[1], v[2], crate::floatbits::ONE_BITS);
    }

    /// Sets a constant vertex attribute from a four-element list.
    pub fn VertexAttrib4fv(&mut self, indx: u32, v: Vec<u32>)
        requires
            old(self).valid(),
        ensures
            final(self).valid(),
            if !old(self).lost && v@.len() < 4 {
                rejected(*old(self), *final(self), WebGLError::InvalidValue)
            } else {
                spec_vertex_attrib_post(*old(self), *final(self), indx, v@[0], v@[1], v@[2], v@[3])
            },
    {
        if self.check_lost() {
            return ;
        }
        if v.len() < 4 {
            return self.webgl_error(WebGLError::InvalidValue);
        }
        self.vertex_attrib(indx, v[0], v[1], v[2], v[3]);
    }
}

/// What a constant vertex attribute set does: the zero slot is cached,
/// the command is sent; an index beyond the limit is a value failure.
pub open spec fn spec_vertex_attrib_post(
    pre: WebGLRenderingContext,
    post: WebGLRenderingContext,
    indx: u32,
    x: u32,
    y: u32,
    z: u32,
    w: u32,
) -> bool {
    if pre.lost {
        rejected(pre, post, WebGLError::ContextLost)
    } else if indx >= pre.limits.max_vertex_attribs {
        rejected(pre, post, WebGLError::InvalidValue)
    } else {
        crate::context::applied(
            pre,
            post,
            ContextState {
                current_vertex_attrib_0: if indx == 0 {
                    (x, y, z, w)
                } else {
                    pre.state.current_vertex_attrib_0
                },
                ..pre.state
            },
            seq![WebGLCommand::VertexAttrib(indx, x, y, z, w)],
        )
    }
}

/// What a validated attribute pointer call does: the slot keeps its
/// enabled flag and divisor, takes the new layout and the bound array
/// buffer, which gains a reference; the slot's previous buffer loses one
/// — releasing it when that was its last — and the pointer command is
/// sent.
pub open spec fn spec_attrib_pointer_applied(
    pre: WebGLRenderingContext,
    post: WebGLRenderingContext,
    index: u32,
    size: u32,
    type_: u32,
    normalized: bool,
    stride: u32,
    offset: u32,
) -> bool {
    let s = pre.state;
    let cv = s.current_vao as int;
    let old_d = s.vaos@[cv].attribs@[index as int];
    let ab = s.bound_array_buffer->0;
    let new_d = VertexAttribData {
        enabled_as_array: old_d.enabled_as_array,
        size,
        type_,
        normalized,
        stride,
        offset,
        buffer: Some(ab),
        divisor: old_d.divisor,
    };
    let bufs1 = s.buffers@.update(ab - 1, crate::buffers::spec_buf_ref(s.buffers@[ab - 1]));
    let bufs2 = match old_d.buffer {
        Some(ob) => bufs1.update(ob - 1, crate::buffers::spec_buf_unref(bufs1[ob - 1], ob).0),
        None => bufs1,
    };
    let relcmds = match old_d.buffer {
        Some(ob) => crate::buffers::spec_buf_unref(bufs1[ob - 1], ob).1,
        None => Seq::empty(),
    };
    &&& crate::context::same_config(pre, post)
    &&& post.lost == pre.lost
    &&& post.last_error == pre.last_error
    &&& post.outbox@ == pre.outbox@ + seq![
        WebGLCommand::VertexAttribPointer(index, size, type_, normalized, stride, offset),
    ] + relcmds
    &&& post.state.buffers@ == bufs2
    &&& post.state.vaos@ == s.vaos@.update(
        cv,
        VertexArrayState { attribs: post.state.vaos@[cv].attribs, ..s.vaos@[cv] },
    )
    &&& post.state.vaos@[cv].attribs@ == s.vaos@[cv].attribs@.update(index as int, new_d)
    &&& post.state == (ContextState {
        buffers: post.state.buffers,
        vaos: post.state.vaos,
        ..s
    })
}

/// The closed set of attribute data types.
pub open spec fn spec_is_attrib_type(t: u32) -> bool {
    ||| t == constants::BYTE
    ||| t == constants::UNSIGNED_BYTE
    ||| t == constants::SHORT
    ||| t == constants::UNSIGNED_SHORT
    ||| t == constants::FLOAT
}

/// The first failing check of an array draw, or success.
pub open spec fn spec_draw_arrays_verdict(
    pre: WebGLRenderingContext,
    mode: u32,
    first: i32,
    count: i32,
    primcount: i32,
) -> Result<(), WebGLError> {
    let s = pre.state;
    if !spec_is_draw_mode(mode) {
        Err(WebGLError::InvalidEnum)
    } else if first < 0 || count < 0 || primcount < 0 {
        Err(WebGLError::InvalidValue)
    } else {
        match s.current_program {
            None => Err(WebGLError::InvalidOperation),
            Some(pid) => {
                if count > 0 && first + count > i32::MAX {
                    Err(WebGLError::InvalidOperation)
                } else if !s.programs@[pid - 1].linked {
                    Err(WebGLError::InvalidOperation)
                } else if !spec_attribs_cover(
                    s.vaos@[s.current_vao as int].attribs@,
                    s.programs@[pid - 1].active_attribs@,
                    s.buffers@,
                    if count > 0 {
                        first + count
                    } else {
                        0
                    },
                    primcount as int,
                ) {
                    Err(WebGLError::InvalidOperation)
                } else {
                    match spec_validate_framebuffer(s) {
                        Err(e) => Err(e),
                        Ok(()) => Ok(()),
                    }
                }
            },
        }
    }
}

/// The first failing check of an indexed draw, or success.
pub open spec fn spec_draw_elements_verdict(
    pre: WebGLRenderingContext,
    mode: u32,
    count: i32,
    type_: u32,
    offset: i64,
    primcount: i32,
) -> Result<(), WebGLError> {
    let s = pre.state;
    if !spec_is_draw_mode(mode) {
        Err(WebGLError::InvalidEnum)
    } else if count < 0 || offset < 0 || primcount < 0 {
        Err(WebGLError::InvalidValue)
    } else {
        match spec_index_size(s.extensions, type_) {
            None => Err(WebGLError::InvalidEnum),
            Some(type_size) => {
                if offset % (type_size as i64) != 0 {
                    Err(WebGLError::InvalidOperation)
                } else if offset > u32::MAX {
                    Err(WebGLError::InvalidOperation)
                } else {
                    match s.current_program {
                        None => Err(WebGLError::InvalidOperation),
                        Some(pid) => {
                            match s.vaos@[s.current_vao as int].element_array_buffer {
                                None => Err(WebGLError::InvalidOperation),
                                Some(elem) => {
                                    if count > 0 && primcount > 0 && offset + count * type_size
                                        > s.buffers@[elem - 1].capacity {
                                        Err(WebGLError::InvalidOperation)
                                    } else if !s.programs@[pid - 1].linked {
                                        Err(WebGLError::InvalidOperation)
                                    } else if !spec_attribs_cover(
                                        s.vaos@[s.current_vao as int].attribs@,
                                        s.programs@[pid - 1].active_attribs@,
                                        s.buffers@,
                                        0,
                                        primcount as int,
                                    ) {
                                        Err(WebGLError::InvalidOperation)
                                    } else {
                                        match spec_validate_framebuffer(s) {
                                            Err(e) => Err(e),
                                            Ok(()) => Ok(()),
                                        }
                                    }
                                },
                            }
                        },
                    }
                }
            },
        }
    }
}

/// What enabling or disabling an attribute slot does.
pub open spec fn spec_set_enabled(
    pre: WebGLRenderingContext,
    post: WebGLRenderingContext,
    attrib_id: u32,
    enabled: bool,
) -> bool {
    if pre.lost {
        rejected(pre, post, WebGLError::ContextLost)
    } else if attrib_id >= pre.limits.max_vertex_attribs {
        rejected(pre, post, WebGLError::InvalidValue)
    } else {
        let cv = pre.state.current_vao as int;
        let vao = pre.state.vaos@[cv];
        &&& crate::context::applied(
            pre,
            post,
            crate::context::ContextState { vaos: post.state.vaos, ..pre.state },
            seq![
                if enabled {
                    WebGLCommand::EnableVertexAttribArray(attrib_id)
                } else {
                    WebGLCommand::DisableVertexAttribArray(attrib_id)
                },
            ],
        )
        &&& post.state.vaos@ == pre.state.vaos@.update(
            cv,
            crate::objects::VertexArrayState { attribs: post.state.vaos@[cv].attribs, ..vao },
        )
        &&& post.state.vaos@[cv].attribs@ == vao.attribs@.update(
            attrib_id as int,
            VertexAttribData { enabled_as_array: enabled, ..vao.attribs@[attrib_id as int] },
        )
    }
}

} // verus!
