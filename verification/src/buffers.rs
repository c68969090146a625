//! Buffer binding and buffer data uploads.
//!
//! Binding keeps an attachment count per buffer: a slot that loses its
//! buffer decrements the count, and a buffer marked for deletion is
//! released exactly when its count reaches zero.

use vstd::prelude::*;

use crate::command::WebGLCommand;
use crate::constants;
use crate::context::{rejected, sent1, unchanged, ContextState, WebGLRenderingContext};
use crate::error::WebGLError;
use crate::objects::{BufferState, VertexArrayState, WebGLBuffer};

verus! {

/// A buffer's bookkeeping after a bind to `target`: the target is pinned
/// and one more slot references it. The count saturates rather than
/// wraps.
pub open spec fn spec_buf_bind(b: BufferState, target: u32) -> BufferState {
    BufferState {
        target: Some(target),
        attached: if b.attached < 0xFFFF_FFFFu32 {
            (b.attached + 1) as u32
        } else {
            b.attached
        },
        ..b
    }
}

/// A buffer's bookkeeping after one more slot started referencing it,
/// without pinning a target: an attribute binding counts as a reference
/// but is not a bind to a buffer target.
pub open spec fn spec_buf_ref(b: BufferState) -> BufferState {
    BufferState {
        attached: if b.attached < 0xFFFF_FFFFu32 {
            (b.attached + 1) as u32
        } else {
            b.attached
        },
        ..b
    }
}

/// A buffer's bookkeeping after one referencing slot let go, and the
/// release command if that was the last reference to a buffer already
/// marked for deletion.
pub open spec fn spec_buf_unref(b: BufferState, id: u32) -> (BufferState, Seq<WebGLCommand>) {
    let a2: u32 = if b.attached > 0 {
        (b.attached - 1) as u32
    } else {
        0
    };
    if a2 == 0 && b.marked_for_deletion && !b.released {
        (
            BufferState { attached: a2, released: true, ..b },
            seq![WebGLCommand::DeleteBuffer(id)],
        )
    } else {
        (BufferState { attached: a2, ..b }, Seq::empty())
    }
}

/// What a validated buffer bind does: the new buffer (if any) gains a
/// reference and its target is pinned, the bind command is sent, the
/// slot's previous holder (if any) loses a reference — releasing it when
/// that was its last — and the slot holds the new binding.
pub open spec fn spec_bind_buffer_applied(
    pre: WebGLRenderingContext,
    post: WebGLRenderingContext,
    target: u32,
    bound: Option<u32>,
) -> bool {
    let s = pre.state;
    let cv = s.current_vao as int;
    let old_binding = if target == constants::ARRAY_BUFFER {
        s.bound_array_buffer
    } else {
        s.vaos@[cv].element_array_buffer
    };
    let bufs1 = match bound {
        Some(id) => s.buffers@.update(id - 1, spec_buf_bind(s.buffers@[id - 1], target)),
        None => s.buffers@,
    };
    let bufs2 = match old_binding {
        Some(oid) => bufs1.update(oid - 1, spec_buf_unref(bufs1[oid - 1], oid).0),
        None => bufs1,
    };
    let relcmds = match old_binding {
        Some(oid) => spec_buf_unref(bufs1[oid - 1], oid).1,
        None => Seq::empty(),
    };
    &&& crate::context::same_config(pre, post)
    &&& post.lost == pre.lost
    &&& post.last_error == pre.last_error
    &&& post.outbox@ == pre.outbox@ + seq![WebGLCommand::BindBuffer(target, bound)] + relcmds
    &&& post.state.buffers@ == bufs2
    &&& (if target == constants::ARRAY_BUFFER {
        post.state.bound_array_buffer == bound && post.state.vaos == s.vaos
    } else {
        post.state.bound_array_buffer == s.bound_array_buffer && post.state.vaos@ == s.vaos@.update(
            cv,
            VertexArrayState {
                element_array_buffer: bound,
                attribs: post.state.vaos@[cv].attribs,
                ..s.vaos@[cv]
            },
        ) && post.state.vaos@[cv].attribs == s.vaos@[cv].attribs
    })
    &&& post.state.size == s.size
    &&& post.state.pack_alignment == s.pack_alignment
    &&& post.state.unpack_alignment == s.unpack_alignment
    &&& post.state.unpack_flip_y == s.unpack_flip_y
    &&& post.state.unpack_premultiply_alpha == s.unpack_premultiply_alpha
    &&& post.state.unpack_colorspace_conversion == s.unpack_colorspace_conversion
    &&& post.state.bound_framebuffer == s.bound_framebuffer
    &&& post.state.bound_renderbuffer == s.bound_renderbuffer
    &&& post.state.current_program == s.current_program
    &&& post.state.current_vao == s.current_vao
    &&& post.state.current_vertex_attrib_0 == s.current_vertex_attrib_0
    &&& post.state.current_scissor == s.current_scissor
    &&& post.state.current_clear_color == s.current_clear_color
    &&& post.state.capabilities == s.capabilities
    &&& post.state.extensions == s.extensions
    &&& post.state.tex_units == s.tex_units
    &&& post.state.textures == s.textures
    &&& post.state.renderbuffers == s.renderbuffers
    &&& post.state.framebuffers == s.framebuffers
    &&& post.state.programs == s.programs
    &&& post.state.shaders == s.shaders
}

impl WebGLRenderingContext {
    /// One referencing slot let go of the buffer: decrements its count
    /// and releases it when that was the last reference to a buffer
    /// already marked for deletion.
    pub(crate) fn unref_buffer(&mut self, id: u32)
        requires
            old(self).valid(),
            0 < id <= old(self).state.buffers@.len(),
        ensures
            final(self).valid(),
            crate::context::same_config(*old(self), *final(self)),
            final(self).lost == old(self).lost,
            final(self).last_error == old(self).last_error,
            final(self).state.buffers@ == old(self).state.buffers@.update(
                id - 1,
                spec_buf_unref(old(self).state.buffers@[id - 1], id).0,
            ),
            final(self).outbox@ == old(self).outbox@ + spec_buf_unref(
                old(self).state.buffers@[id - 1],
                id,
            ).1,
            final(self).state == (ContextState {
                buffers: final(self).state.buffers,
                ..old(self).state
            }),
    {
        let ghost pre = self.outbox@;
        let idx = (id - 1) as usize;
        let b = self.state.buffers[idx].attached;
        let a2: u32 = if b > 0 {
            b - 1
        } else {
            0
        };
        self.state.buffers[idx].attached = a2;
        if a2 == 0 && self.state.buffers[idx].marked_for_deletion
            && !self.state.buffers[idx].released {
            self.state.buffers[idx].released = true;
            self.send_command(WebGLCommand::DeleteBuffer(id));
        }
        proof {
            assert(self.outbox@ =~= pre + spec_buf_unref(old(self).state.buffers@[id - 1], id).1);
            assert(self.state.buffers@ =~= old(self).state.buffers@.update(
                id - 1,
                spec_buf_unref(old(self).state.buffers@[id - 1], id).0,
            ));
        }
    }

    /// One more slot started referencing the buffer.
    pub(crate) fn ref_buffer(&mut self, id: u32)
        requires
            old(self).valid(),
            0 < id <= old(self).state.buffers@.len(),
        ensures
            final(self).valid(),
            crate::context::same_config(*old(self), *final(self)),
            final(self).lost == old(self).lost,
            final(self).last_error == old(self).last_error,
            final(self).outbox == old(self).outbox,
            final(self).state.buffers@ == old(self).state.buffers@.update(
                id - 1,
                spec_buf_ref(old(self).state.buffers@[id - 1]),
            ),
            final(self).state == (ContextState {
                buffers: final(self).state.buffers,
                ..old(self).state
            }),
    {
        let idx = (id - 1) as usize;
        let a = self.state.buffers[idx].attached;
        if a < u32::MAX {
            self.state.buffers[idx].attached = a + 1;
        }
        proof {
            assert(self.state.buffers@ =~= old(self).state.buffers@.update(
                id - 1,
                spec_buf_ref(old(self).state.buffers@[id - 1]),
            ));
        }
    }

    /// Binds a buffer to a buffer target, or clears the slot. A buffer
    /// may only ever bind to one target; binding one marked for deletion
    /// or first bound to the other target is rejected with
    /// `InvalidOperation`.
    pub fn BindBuffer(&mut self, target: u32, buffer: Option<&WebGLBuffer>)
        requires
            old(self).valid(),
        ensures
            final(self).valid(),
            if old(self).lost {
                rejected(*old(self), *final(self), WebGLError::ContextLost)
            } else if buffer matches Some(h) && !old(self).owns_buffer(*h) {
                rejected(*old(self), *final(self), WebGLError::InvalidOperation)
            } else if target != constants::ARRAY_BUFFER && target
                != constants::ELEMENT_ARRAY_BUFFER {
                rejected(*old(self), *final(self), WebGLError::InvalidEnum)
            } else {
                match buffer {
                    Some(h) => {
                        let b = old(self).state.buffers@[h.id - 1];
                        if b.marked_for_deletion || (b.target is Some && b.target != Some(
                            target,
                        )) {
                            rejected(*old(self), *final(self), WebGLError::InvalidOperation)
                        } else {
                            spec_bind_buffer_applied(*old(self), *final(self), target, Some(h.id))
                        }
                    },
                    None => spec_bind_buffer_applied(*old(self), *final(self), target, None),
                }
            },
    {
        if self.check_lost() {
            return ;
        }
        if let Some(h) = buffer {
            if !self.validate_buffer_ownership(h) {
                return self.webgl_error(WebGLError::InvalidOperation);
            }
        }
        if target != constants::ARRAY_BUFFER && target != constants::ELEMENT_ARRAY_BUFFER {
            return self.webgl_error(WebGLError::InvalidEnum);
        }
        let bound: Option<u32> = match buffer {
            Some(h) => {
                let idx = (h.id - 1) as usize;
                if self.state.buffers[idx].marked_for_deletion {
                    return self.webgl_error(WebGLError::InvalidOperation);
                }
                match self.state.buffers[idx].target {
                    Some(t) if t != target => {
                        return self.webgl_error(WebGLError::InvalidOperation);
                    },
                    _ => (),
                }
                Some(h.id)
            },
            None => None,
        };
        self.bind_buffer_inner(target, bound);
    }

    /// The mutation half of `BindBuffer`, once validation has passed.
    fn bind_buffer_inner(&mut self, target: u32, bound: Option<u32>)
        requires
            old(self).valid(),
            !old(self).lost,
            target == constants::ARRAY_BUFFER || target == constants::ELEMENT_ARRAY_BUFFER,
            bound matches Some(id) ==> 0 < id <= old(self).state.buffers@.len() && !old(
                self,
            ).state.buffers@[id - 1].marked_for_deletion && (old(self).state.buffers@[id
                - 1].target is None || old(self).state.buffers@[id - 1].target == Some(target)),
        ensures
            final(self).valid(),
            spec_bind_buffer_applied(*old(self), *final(self), target, bound),
    {
        if target == constants::ARRAY_BUFFER {
            self.bind_array_buffer_inner(bound);
        } else {
            self.bind_element_buffer_inner(bound);
        }
    }

    /// Pins the buffer's target and counts the new reference.
    fn grab_buffer_reference(&mut self, target: u32, id: u32)
        requires
            old(self).valid(),
            0 < id <= old(self).state.buffers@.len(),
        ensures
            final(self).valid(),
            crate::context::same_config(*old(self), *final(self)),
            final(self).lost == old(self).lost,
            final(self).last_error == old(self).last_error,
            final(self).outbox == old(self).outbox,
            final(self).state.buffers@ == old(self).state.buffers@.update(
                id - 1,
                spec_buf_bind(old(self).state.buffers@[id - 1], target),
            ),
            final(self).state == (ContextState {
                buffers: final(self).state.buffers,
                ..old(self).state
            }),
    {
        let idx = (id - 1) as usize;
        self.state.buffers[idx].target = Some(target);
        let a = self.state.buffers[idx].attached;
        if a < u32::MAX {
            self.state.buffers[idx].attached = a + 1;
        }
        proof {
            assert(self.state.buffers@ =~= old(self).state.buffers@.update(
                id - 1,
                spec_buf_bind(old(self).state.buffers@[id - 1], target),
            ));
        }
    }

    /// `bind_buffer_inner` for the array-buffer slot.
    #[verifier::rlimit(100)]
    fn bind_array_buffer_inner(&mut self, bound: Option<u32>)
        requires
            old(self).valid(),
            !old(self).lost,
            bound matches Some(id) ==> 0 < id <= old(self).state.buffers@.len() && !old(
                self,
            ).state.buffers@[id - 1].marked_for_deletion && (old(self).state.buffers@[id
                - 1].target is None || old(self).state.buffers@[id - 1].target == Some(
                constants::ARRAY_BUFFER,
            )),
        ensures
            final(self).valid(),
            spec_bind_buffer_applied(*old(self), *final(self), constants::ARRAY_BUFFER, bound),
    {
        let ghost pre = *self;
        let target = constants::ARRAY_BUFFER;
        let old_binding: Option<u32> = self.state.bound_array_buffer;
        match bound {
            Some(id) => self.grab_buffer_reference(target, id),
            None => (),
        }
        self.send_command(WebGLCommand::BindBuffer(target, bound));
        match old_binding {
            Some(oid) => self.unref_buffer(oid),
            None => (),
        }
        self.state.bound_array_buffer = bound;
        proof {
            let s = pre.state;
            let bufs1 = match bound {
                Some(id) => s.buffers@.update(id - 1, spec_buf_bind(s.buffers@[id - 1], target)),
                None => s.buffers@,
            };
            assert(self.state.buffers@ =~= (match old_binding {
                Some(oid) => bufs1.update(oid - 1, spec_buf_unref(bufs1[oid - 1], oid).0),
                None => bufs1,
            }));
            assert(self.outbox@ =~= pre.outbox@ + seq![WebGLCommand::BindBuffer(target, bound)]
                + (match old_binding {
                Some(oid) => spec_buf_unref(bufs1[oid - 1], oid).1,
                None => Seq::empty(),
            }));
        }
    }

    /// `bind_buffer_inner` for the current vertex array object's
    /// element-array slot.
    #[verifier::rlimit(100)]
    fn bind_element_buffer_inner(&mut self, bound: Option<u32>)
        requires
            old(self).valid(),
            !old(self).lost,
            bound matches Some(id) ==> 0 < id <= old(self).state.buffers@.len() && !old(
                self,
            ).state.buffers@[id - 1].marked_for_deletion && (old(self).state.buffers@[id
                - 1].target is None || old(self).state.buffers@[id - 1].target == Some(
                constants::ELEMENT_ARRAY_BUFFER,
            )),
        ensures
            final(self).valid(),
            spec_bind_buffer_applied(
                *old(self),
                *final(self),
                constants::ELEMENT_ARRAY_BUFFER,
                bound,
            ),
    {
        let ghost pre = *self;
        let target = constants::ELEMENT_ARRAY_BUFFER;
        let cv = self.state.current_vao as usize;
        let old_binding: Option<u32> = self.state.vaos[cv].element_array_buffer;
        match bound {
            Some(id) => self.grab_buffer_reference(target, id),
            None => (),
        }
        self.send_command(WebGLCommand::BindBuffer(target, bound));
        match old_binding {
            Some(oid) => self.unref_buffer(oid),
            None => (),
        }
        self.state.vaos[cv].element_array_buffer = bound;
        proof {
            let s = pre.state;
            let bufs1 = match bound {
                Some(id) => s.buffers@.update(id - 1, spec_buf_bind(s.buffers@[id - 1], target)),
                None => s.buffers@,
            };
            assert(self.state.buffers@ =~= (match old_binding {
                Some(oid) => bufs1.update(oid - 1, spec_buf_unref(bufs1[oid - 1], oid).0),
                None => bufs1,
            }));
            assert(self.state.vaos@ =~= s.vaos@.update(
                cv as int,
                VertexArrayState {
                    element_array_buffer: bound,
                    attribs: self.state.vaos@[cv as int].attribs,
                    ..s.vaos@[cv as int]
                },
            ));
            assert(self.outbox@ =~= pre.outbox@ + seq![WebGLCommand::BindBuffer(target, bound)]
                + (match old_binding {
                Some(oid) => spec_buf_unref(bufs1[oid - 1], oid).1,
                None => Seq::empty(),
            }));
            assert forall|k: int| 0 <= k < self.state.vaos@.len() implies crate::context::vao_wf(
                #[trigger] self.state.vaos@[k],
                self.state,
                self.limits,
            ) by {
                let v = self.state.vaos@[k];
                assert(self.state.buffers@.len() == s.buffers@.len());
                if k == cv as int {
                    assert(v.attribs == s.vaos@[k].attribs);
                    assert(crate::context::vao_wf(s.vaos@[k], s, pre.limits));
                } else {
                    assert(v == s.vaos@[k]);
                    assert(crate::context::vao_wf(v, s, pre.limits));
                }
            }
        }
    }

    /// Replaces the bound buffer's contents; the usage hint must be one
    /// of the three documented values, and a missing data source is
    /// rejected with `InvalidValue`.
    pub fn BufferData(&mut self, target: u32, data: Option<Vec<u8>>, usage: u32)
        requires
            old(self).valid(),
        ensures
            final(self).valid(),
            if old(self).lost {
                rejected(*old(self), *final(self), WebGLError::ContextLost)
            } else {
                match data {
                    None => rejected(*old(self), *final(self), WebGLError::InvalidValue),
                    Some(bytes) => {
                        match crate::bindings::spec_bound_buffer(old(self).state, target) {
                            Err(e) => rejected(*old(self), *final(self), e),
                            Ok(None) => rejected(
                                *old(self),
                                *final(self),
                                WebGLError::InvalidOperation,
                            ),
                            Ok(Some(id)) => {
                                if usage != constants::STREAM_DRAW && usage
                                    != constants::STATIC_DRAW && usage != constants::DYNAMIC_DRAW {
                                    rejected(*old(self), *final(self), WebGLError::InvalidEnum)
                                } else {
                                    spec_buffer_data_applied(
                                        *old(self),
                                        *final(self),
                                        target,
                                        id,
                                        bytes,
                                        usage,
                                    )
                                }
                            },
                        }
                    },
                }
            },
    {
        if self.check_lost() {
            return ;
        }
        let bytes = match data {
            Some(bytes) => bytes,
            None => return self.webgl_error(WebGLError::InvalidValue),
        };
        let id = match self.bound_buffer(target) {
            Err(e) => return self.webgl_error(e),
            Ok(None) => return self.webgl_error(WebGLError::InvalidOperation),
            Ok(Some(id)) => id,
        };
        match usage {
            constants::STREAM_DRAW | constants::STATIC_DRAW | constants::DYNAMIC_DRAW => (),
            _ => return self.webgl_error(WebGLError::InvalidEnum),
        }
        let idx = (id - 1) as usize;
        self.state.buffers[idx].capacity = bytes.len();
        self.state.buffers[idx].usage = usage;
        let ghost pre_buffers = old(self).state.buffers@;
        proof {
            assert(self.state.buffers@ =~= pre_buffers.update(
                id - 1,
                BufferState {
                    capacity: bytes@.len() as usize,
                    usage,
                    ..pre_buffers[id - 1]
                },
            ));
        }
        self.send_command(WebGLCommand::BufferData(target, bytes, usage));
    }

    /// Allocates the bound buffer's store at a caller-chosen size,
    /// zero-filled; a negative size is rejected with `InvalidValue`.
    pub fn BufferData_(&mut self, target: u32, size: i64, usage: u32)
        requires
            old(self).valid(),
        ensures
            final(self).valid(),
            if old(self).lost {
                rejected(*old(self), *final(self), WebGLError::ContextLost)
            } else {
                match crate::bindings::spec_bound_buffer(old(self).state, target) {
                    Err(e) => rejected(*old(self), *final(self), e),
                    Ok(None) => rejected(*old(self), *final(self), WebGLError::InvalidOperation),
                    Ok(Some(id)) => {
                        if size < 0 {
                            rejected(*old(self), *final(self), WebGLError::InvalidValue)
                        } else if usage != constants::STREAM_DRAW && usage != constants::STATIC_DRAW
                            && usage != constants::DYNAMIC_DRAW {
                            rejected(*old(self), *final(self), WebGLError::InvalidEnum)
                        } else {
                            exists|bytes: Vec<u8>|
                                #![auto]
                                bytes@ == Seq::new(size as nat, |i: int| 0u8)
                                    && spec_buffer_data_applied(
                                    *old(self),
                                    *final(self),
                                    target,
                                    id,
                                    bytes,
                                    usage,
                                )
                        }
                    },
                }
            },
    {
        if self.check_lost() {
            return ;
        }
        let id = match self.bound_buffer(target) {
            Err(e) => return self.webgl_error(e),
            Ok(None) => return self.webgl_error(WebGLError::InvalidOperation),
            Ok(Some(id)) => id,
        };
        if size < 0 {
            return self.webgl_error(WebGLError::InvalidValue);
        }
        match usage {
            constants::STREAM_DRAW | constants::STATIC_DRAW | constants::DYNAMIC_DRAW => (),
            _ => return self.webgl_error(WebGLError::InvalidEnum),
        }
        let bytes = zero_vec(size as u64);
        let idx = (id - 1) as usize;
        self.state.buffers[idx].capacity = bytes.len();
        self.state.buffers[idx].usage = usage;
        let ghost pre_buffers = old(self).state.buffers@;
        let ghost witness = bytes;
        proof {
            assert(self.state.buffers@ =~= pre_buffers.update(
                id - 1,
                BufferState {
                    capacity: witness@.len() as usize,
                    usage,
                    ..pre_buffers[id - 1]
                },
            ));
        }
        self.send_command(WebGLCommand::BufferData(target, bytes, usage));
    }

    /// Overwrites a range of the bound buffer; a range beyond the
    /// buffer's capacity is rejected with `InvalidValue`.
    pub fn BufferSubData(&mut self, target: u32, offset: i64, data: Vec<u8>)
        requires
            old(self).valid(),
        ensures
            final(self).valid(),
            if old(self).lost {
                rejected(*old(self), *final(self), WebGLError::ContextLost)
            } else {
                match crate::bindings::spec_bound_buffer(old(self).state, target) {
                    Err(e) => rejected(*old(self), *final(self), e),
                    Ok(None) => rejected(*old(self), *final(self), WebGLError::InvalidOperation),
                    Ok(Some(id)) => {
                        if offset < 0 {
                            rejected(*old(self), *final(self), WebGLError::InvalidValue)
                        } else if offset + data@.len() > old(self).state.buffers@[id
                            - 1].capacity {
                            rejected(*old(self), *final(self), WebGLError::InvalidValue)
                        } else {
                            sent1(
                                *old(self),
                                *final(self),
                                WebGLCommand::BufferSubData(target, offset as usize, data),
                            )
                        }
                    },
                }
            },
    {
        if self.check_lost() {
            return ;
        }
        let id = match self.bound_buffer(target) {
            Err(e) => return self.webgl_error(e),
            Ok(None) => return self.webgl_error(WebGLError::InvalidOperation),
            Ok(Some(id)) => id,
        };
        if offset < 0 {
            return self.webgl_error(WebGLError::InvalidValue);
        }
        let idx = (id - 1) as usize;
        let cap = self.state.buffers[idx].capacity;
        if (offset as u128) + (data.len() as u128) > (cap as u128) {
            return self.webgl_error(WebGLError::InvalidValue);
        }
        self.send_command(WebGLCommand::BufferSubData(target, offset as usize, data));
    }
}

/// What a validated data upload does: the bound buffer's capacity and
/// usage are recorded and the payload is sent.
pub open spec fn spec_buffer_data_applied(
    pre: WebGLRenderingContext,
    post: WebGLRenderingContext,
    target: u32,
    id: u32,
    bytes: Vec<u8>,
    usage: u32,
) -> bool {
    &&& crate::context::same_config(pre, post)
    &&& post.lost == pre.lost
    &&& post.last_error == pre.last_error
    &&& post.outbox@ == pre.outbox@ + seq![WebGLCommand::BufferData(target, bytes, usage)]
    &&& post.state == (ContextState { buffers: post.state.buffers, ..pre.state })
    &&& post.state.buffers@ == pre.state.buffers@.update(
        id - 1,
        BufferState {
            capacity: bytes@.len() as usize,
            usage,
            ..pre.state.buffers@[id - 1]
        },
    )
}

/// Builds a zero-filled buffer of the given length.
fn zero_vec(n: u64) -> (r: Vec<u8>)
    ensures
        r@ == Seq::new(n as nat, |i: int| 0u8),
{
    let mut data: Vec<u8> = Vec::new();
    let mut i: u64 = 0;
    while i < n
        invariant
            i <= n,
            data@.len() == i,
            forall|j: int| 0 <= j < data@.len() ==> data@[j] == 0u8,
        decreases n - i,
    {
        data.push(0);
        i = i + 1;
    }
    proof {
        assert(data@ =~= Seq::new(n as nat, |i: int| 0u8));
    }
    data
}

} // verus!
