//! Object deletion.
//!
//! Deleting a bound object behaves as if it had first been unbound from
//! every slot that references it. Deleting a texture visits every texture
//! unit; when a unit other than the active one must be touched, the
//! active-unit selection is switched there, the unbind is issued, and the
//! original selection is restored afterwards, so that no switch leaks into
//! later calls.

use vstd::prelude::*;

use crate::command::WebGLCommand;
use crate::constants;
use crate::context::{
    applied, rejected, unchanged, ContextState, WebGLRenderingContext,
};
use crate::error::WebGLError;
use crate::objects::{
    BufferState, FramebufferState, RenderbufferState, TextureState, VertexArrayState,
    VertexAttribData, WebGLBuffer, WebGLFramebuffer, WebGLRenderbuffer, WebGLTexture,
    WebGLVertexArrayObjectOES,
};
use crate::textures::TextureUnit;

verus! {

// ---------------------------------------------------------------------------
// The texture-unit sweep.

/// The target a unit must unbind when the texture is deleted. A texture
/// only ever binds to one target kind, so at most one slot can hold it.
pub open spec fn unit_unbind_target(u: TextureUnit, tex: u32) -> Option<u32> {
    if u.tex_2d == Some(tex) {
        Some(constants::TEXTURE_2D)
    } else if u.tex_cube_map == Some(tex) {
        Some(constants::TEXTURE_CUBE_MAP)
    } else {
        None
    }
}

/// The unit after the sweep: its slot holding the texture cleared.
pub open spec fn unit_after_unbind(u: TextureUnit, tex: u32) -> TextureUnit {
    if u.tex_2d == Some(tex) {
        TextureUnit { tex_2d: None, ..u }
    } else if u.tex_cube_map == Some(tex) {
        TextureUnit { tex_cube_map: None, ..u }
    } else {
        u
    }
}

/// The unit the backend has selected after sweeping the first `upto`
/// units: the last one that needed an unbind, or the original selection.
pub open spec fn sweep_active(units: Seq<TextureUnit>, tex: u32, orig: int, upto: int) -> int
    decreases upto,
{
    if upto <= 0 {
        orig
    } else if unit_unbind_target(units[upto - 1], tex) is Some {
        upto - 1
    } else {
        sweep_active(units, tex, orig, upto - 1)
    }
}

/// The commands the sweep issues for the first `upto` units: a selection
/// switch where the unit differs from the currently selected one, then
/// the unbind.
pub open spec fn sweep_cmds(units: Seq<TextureUnit>, tex: u32, orig: int, upto: int) -> Seq<
    WebGLCommand,
>
    decreases upto,
{
    if upto <= 0 {
        Seq::empty()
    } else {
        let rest = sweep_cmds(units, tex, orig, upto - 1);
        let prev = sweep_active(units, tex, orig, upto - 1);
        match unit_unbind_target(units[upto - 1], tex) {
            Some(target) => rest + (if upto - 1 != prev {
                seq![
                    WebGLCommand::ActiveTexture(((upto - 1) + constants::TEXTURE0 as int) as u32),
                ]
            } else {
                Seq::empty()
            }) + seq![WebGLCommand::BindTexture(target, None)],
            None => rest,
        }
    }
}

/// Every command the deletion of a texture issues: the sweep, the restore
/// of the original selection where the sweep left another unit selected,
/// and the release of the object.
pub open spec fn spec_delete_texture_cmds(units: Seq<TextureUnit>, tex: u32, orig: int) -> Seq<
    WebGLCommand,
> {
    let n = units.len() as int;
    sweep_cmds(units, tex, orig, n) + (if sweep_active(units, tex, orig, n) != orig {
        seq![WebGLCommand::ActiveTexture((orig + constants::TEXTURE0 as int) as u32)]
    } else {
        Seq::empty()
    }) + seq![WebGLCommand::DeleteTexture(tex)]
}

impl WebGLRenderingContext {
    /// Deletes a texture: clears it from every texture unit slot that
    /// references it — restoring the active-unit selection afterwards —
    /// marks it deleted, and releases it. Deleting through a foreign
    /// handle is rejected with `InvalidOperation`; deleting nothing or an
    /// already deleted texture is a no-op.
    #[verifier::rlimit(100)]
    pub fn DeleteTexture(&mut self, texture: Option<&WebGLTexture>)
        requires
            old(self).valid(),
        ensures
            final(self).valid(),
            if old(self).lost {
                rejected(*old(self), *final(self), WebGLError::ContextLost)
            } else {
                match texture {
                    None => unchanged(*old(self), *final(self)),
                    Some(h) => {
                        if !old(self).owns_texture(*h) {
                            rejected(*old(self), *final(self), WebGLError::InvalidOperation)
                        } else if old(self).state.textures@[h.id - 1].deleted {
                            unchanged(*old(self), *final(self))
                        } else {
                            let units = old(self).state.tex_units.units@;
                            let orig = old(self).state.tex_units.active_unit as int;
                            applied(
                                *old(self),
                                *final(self),
                                ContextState {
                                    tex_units: final(self).state.tex_units,
                                    textures: final(self).state.textures,
                                    ..old(self).state
                                },
                                spec_delete_texture_cmds(units, h.id, orig),
                            )
                            // the selection is exactly what it was
                            && final(self).state.tex_units.active_unit == old(
                                self,
                            ).state.tex_units.active_unit
                            // every unit lost exactly its reference to the texture
                            && final(self).state.tex_units.units@ == Seq::new(
                                units.len(),
                                |i: int| unit_after_unbind(units[i], h.id),
                            )
                            // the object is marked deleted, nothing else about it changed
                            && final(self).state.textures@ == old(self).state.textures@.update(
                                h.id - 1,
                                TextureState {
                                    deleted: true,
                                    ..old(self).state.textures@[h.id - 1]
                                },
                            )
                        }
                    },
                }
            },
    {
        if self.check_lost() {
            return ;
        }
        let h = match texture {
            Some(h) => h,
            None => return ,
        };
        if !self.validate_texture_ownership(h) {
            return self.webgl_error(WebGLError::InvalidOperation);
        }
        let idx = (h.id - 1) as usize;
        if self.state.textures[idx].deleted {
            return ;
        }
        let ghost pre = *self;
        let ghost units0 = self.state.tex_units.units@;
        let orig: u32 = self.state.tex_units.active_unit;
        let mut cur: u32 = orig;
        let n: usize = self.state.tex_units.units.len();
        let mut i: usize = 0;
        while i < n
            invariant
                i <= n,
                n == units0.len(),
                orig == pre.state.tex_units.active_unit,
                pre.valid(),
                !pre.lost,
                self.ctx_id == pre.ctx_id,
                self.limits == pre.limits,
                self.lost == pre.lost,
                self.last_error == pre.last_error,
                self.state.size == pre.state.size,
                self.state.pack_alignment == pre.state.pack_alignment,
                self.state.unpack_alignment == pre.state.unpack_alignment,
                self.state.unpack_flip_y == pre.state.unpack_flip_y,
                self.state.unpack_premultiply_alpha == pre.state.unpack_premultiply_alpha,
                self.state.unpack_colorspace_conversion == pre.state.unpack_colorspace_conversion,
                self.state.bound_framebuffer == pre.state.bound_framebuffer,
                self.state.bound_renderbuffer == pre.state.bound_renderbuffer,
                self.state.bound_array_buffer == pre.state.bound_array_buffer,
                self.state.current_program == pre.state.current_program,
                self.state.current_vao == pre.state.current_vao,
                self.state.current_vertex_attrib_0 == pre.state.current_vertex_attrib_0,
                self.state.current_scissor == pre.state.current_scissor,
                self.state.current_clear_color == pre.state.current_clear_color,
                self.state.capabilities == pre.state.capabilities,
                self.state.extensions == pre.state.extensions,
                self.state.buffers == pre.state.buffers,
                self.state.textures == pre.state.textures,
                self.state.renderbuffers == pre.state.renderbuffers,
                self.state.framebuffers == pre.state.framebuffers,
                self.state.programs == pre.state.programs,
                self.state.shaders == pre.state.shaders,
                self.state.vaos == pre.state.vaos,
                self.state.tex_units.active_unit == orig,
                self.state.tex_units.units@.len() == n,
                self.state.tex_units.units@ == Seq::new(
                    units0.len(),
                    |j: int|
                        if j < i {
                            unit_after_unbind(units0[j], h.id)
                        } else {
                            units0[j]
                        },
                ),
                cur as int == sweep_active(units0, h.id, orig as int, i as int),
                0 <= cur < n,
                n <= 0x10000,
                self.outbox@ == pre.outbox@ + sweep_cmds(units0, h.id, orig as int, i as int),
            decreases n - i,
        {
            let ghost i0 = i as int;
            let ghost cur0 = cur as int;
            let ghost ob0 = self.outbox@;
            let unit = self.state.tex_units.units[i];
            proof {
                assert(unit == units0[i as int]);
            }
            let target_opt: Option<u32> = if unit.tex_2d == Some(h.id) {
                Some(constants::TEXTURE_2D)
            } else if unit.tex_cube_map == Some(h.id) {
                Some(constants::TEXTURE_CUBE_MAP)
            } else {
                None
            };
            match target_opt {
                Some(target) => {
                    if i as u32 != cur {
                        self.send_command(
                            WebGLCommand::ActiveTexture((i as u32) + constants::TEXTURE0),
                        );
                        cur = i as u32;
                    }
                    self.send_command(WebGLCommand::BindTexture(target, None));
                    let cleared = if unit.tex_2d == Some(h.id) {
                        TextureUnit { tex_2d: None, ..unit }
                    } else {
                        TextureUnit { tex_cube_map: None, ..unit }
                    };
                    self.state.tex_units.units.set(i, cleared);
                    proof {
                        let delta = (if i0 != cur0 {
                            seq![
                                WebGLCommand::ActiveTexture(
                                    (i0 + constants::TEXTURE0 as int) as u32,
                                ),
                            ]
                        } else {
                            Seq::empty()
                        }) + seq![WebGLCommand::BindTexture(target, None)];
                        assert(self.outbox@ =~= ob0 + delta);
                        assert(sweep_active(units0, h.id, orig as int, i0 + 1) == i0);
                        assert(sweep_cmds(units0, h.id, orig as int, i0 + 1) == sweep_cmds(
                            units0,
                            h.id,
                            orig as int,
                            i0,
                        ) + delta);
                        assert(self.outbox@ =~= pre.outbox@ + sweep_cmds(
                            units0,
                            h.id,
                            orig as int,
                            i0 + 1,
                        ));
                    }
                },
                None => {
                    proof {
                        assert(sweep_active(units0, h.id, orig as int, i0 + 1) == cur0);
                        assert(sweep_cmds(units0, h.id, orig as int, i0 + 1) == sweep_cmds(
                            units0,
                            h.id,
                            orig as int,
                            i0,
                        ));
                    }
                },
            }
            i = i + 1;
            proof {
                assert(self.state.tex_units.units@ =~= Seq::new(
                    units0.len(),
                    |j: int|
                        if j < i {
                            unit_after_unbind(units0[j], h.id)
                        } else {
                            units0[j]
                        },
                ));
            }
        }
        if cur != orig {
            self.send_command(WebGLCommand::ActiveTexture(orig + constants::TEXTURE0));
        }
        self.state.textures[idx].deleted = true;
        self.send_command(WebGLCommand::DeleteTexture(h.id));
        proof {
            assert(self.outbox@ =~= pre.outbox@ + spec_delete_texture_cmds(
                units0,
                h.id,
                orig as int,
            ));
        }
    }
}

// ---------------------------------------------------------------------------
// Buffer deletion.

/// How many attribute slots of the list reference the buffer, among the
/// first `upto`.
pub open spec fn count_buffer_refs(attribs: Seq<VertexAttribData>, id: u32, upto: int) -> nat
    decreases upto,
{
    if upto <= 0 {
        0
    } else {
        count_buffer_refs(attribs, id, upto - 1) + (if attribs[upto - 1].buffer == Some(id) {
            1nat
        } else {
            0nat
        })
    }
}

/// An attribute slot after the buffer sweep: a reference to the deleted
/// buffer is cleared, everything else kept.
pub open spec fn attrib_after_unbind(a: VertexAttribData, id: u32) -> VertexAttribData {
    if a.buffer == Some(id) {
        VertexAttribData { buffer: None, ..a }
    } else {
        a
    }
}

/// The attachment count after clearing `hits` references, never below
/// zero.
pub open spec fn spec_sub_attached(attached: u32, hits: nat) -> u32 {
    if attached >= hits {
        (attached - hits) as u32
    } else {
        0
    }
}

/// Clears every reference to the buffer from the attribute list and
/// reports how many were cleared.
fn unbind_attribs(attribs: &mut Vec<VertexAttribData>, id: u32) -> (hits: u32)
    requires
        old(attribs)@.len() <= 0x10000,
    ensures
        final(attribs)@ == Seq::new(
            old(attribs)@.len(),
            |k: int| attrib_after_unbind(old(attribs)@[k], id),
        ),
        hits == count_buffer_refs(old(attribs)@, id, old(attribs)@.len() as int),
        hits <= old(attribs)@.len(),
{
    let ghost attribs0 = attribs@;
    let n = attribs.len();
    let mut hits: u32 = 0;
    let mut j: usize = 0;
    while j < n
        invariant
            j <= n,
            n == attribs0.len(),
            n <= 0x10000,
            attribs@.len() == n,
            hits as int == count_buffer_refs(attribs0, id, j as int),
            hits <= j,
            attribs@ == Seq::new(
                attribs0.len(),
                |k: int|
                    if k < j {
                        attrib_after_unbind(attribs0[k], id)
                    } else {
                        attribs0[k]
                    },
            ),
        decreases n - j,
    {
        let a = attribs[j];
        proof {
            assert(a == attribs0[j as int]);
        }
        if a.buffer == Some(id) {
            attribs.set(j, VertexAttribData { buffer: None, ..a });
            hits = hits + 1;
        }
        j = j + 1;
        proof {
            assert(attribs@ =~= Seq::new(
                attribs0.len(),
                |k: int|
                    if k < j {
                        attrib_after_unbind(attribs0[k], id)
                    } else {
                        attribs0[k]
                    },
            ));
        }
    }
    hits
}

/// The state transition `DeleteBuffer` applies on its success path: every
/// reference in the current vertex array object and the array-buffer slot
/// is cleared, the object is marked, and it is released exactly when no
/// reference remains.
pub open spec fn delete_buffer_applied(
    pre: WebGLRenderingContext,
    post: WebGLRenderingContext,
    id: u32,
) -> bool {
    let s = pre.state;
    let vao = s.vaos@[s.current_vao as int];
    let elem_hit = vao.element_array_buffer == Some(id);
    let arr_hit = s.bound_array_buffer == Some(id);
    let hits = count_buffer_refs(vao.attribs@, id, vao.attribs@.len() as int) + (if elem_hit {
        1nat
    } else {
        0nat
    }) + (if arr_hit {
        1nat
    } else {
        0nat
    });
    let b0 = s.buffers@[id - 1];
    let attached2 = spec_sub_attached(b0.attached, hits);
    &&& crate::context::same_config(pre, post)
    &&& post.lost == pre.lost
    &&& post.last_error == pre.last_error
    &&& post.outbox@ == pre.outbox@ + (if attached2 == 0 {
        seq![WebGLCommand::DeleteBuffer(id)]
    } else {
        Seq::empty()
    })
    &&& post.state.bound_array_buffer == (if arr_hit {
        None
    } else {
        s.bound_array_buffer
    })
    &&& post.state.size == s.size
    &&& post.state.pack_alignment == s.pack_alignment
    &&& post.state.unpack_alignment == s.unpack_alignment
    &&& post.state.unpack_flip_y == s.unpack_flip_y
    &&& post.state.unpack_premultiply_alpha == s.unpack_premultiply_alpha
    &&& post.state.unpack_colorspace_conversion == s.unpack_colorspace_conversion
    &&& post.state.bound_framebuffer == s.bound_framebuffer
    &&& post.state.bound_renderbuffer == s.bound_renderbuffer
    &&& post.state.current_program == s.current_program
    &&& post.state.current_vao == s.current_vao
    &&& post.state.current_vertex_attrib_0 == s.current_vertex_attrib_0
    &&& post.state.current_scissor == s.current_scissor
    &&& post.state.current_clear_color == s.current_clear_color
    &&& post.state.capabilities == s.capabilities
    &&& post.state.extensions == s.extensions
    &&& post.state.tex_units == s.tex_units
    &&& post.state.textures == s.textures
    &&& post.state.renderbuffers == s.renderbuffers
    &&& post.state.framebuffers == s.framebuffers
    &&& post.state.programs == s.programs
    &&& post.state.shaders == s.shaders
    &&& post.state.vaos@ == s.vaos@.update(
        s.current_vao as int,
        VertexArrayState {
            element_array_buffer: if elem_hit {
                None
            } else {
                vao.element_array_buffer
            },
            attribs: post.state.vaos@[s.current_vao as int].attribs,
            ..vao
        },
    )
    &&& post.state.vaos@[s.current_vao as int].attribs@ == Seq::new(
        vao.attribs@.len(),
        |j: int| attrib_after_unbind(vao.attribs@[j], id),
    )
    &&& post.state.buffers@ == s.buffers@.update(
        id - 1,
        BufferState {
            marked_for_deletion: true,
            attached: attached2,
            released: attached2 == 0,
            ..b0
        },
    )
}

impl WebGLRenderingContext {
    /// Deletes a buffer: clears it from the current vertex array object's
    /// element-array slot and attribute bindings and from the
    /// array-buffer slot, marks it for deletion, and releases it once no
    /// binding references it any more. Deleting through a foreign handle
    /// is rejected with `InvalidOperation`; deleting nothing or an
    /// already deleted buffer is a no-op.
    pub fn DeleteBuffer(&mut self, buffer: Option<&WebGLBuffer>)
        requires
            old(self).valid(),
        ensures
            final(self).valid(),
            if old(self).lost {
                rejected(*old(self), *final(self), WebGLError::ContextLost)
            } else {
                match buffer {
                    None => unchanged(*old(self), *final(self)),
                    Some(h) => {
                        if !old(self).owns_buffer(*h) {
                            rejected(*old(self), *final(self), WebGLError::InvalidOperation)
                        } else if old(self).state.buffers@[h.id - 1].marked_for_deletion {
                            unchanged(*old(self), *final(self))
                        } else {
                            delete_buffer_applied(*old(self), *final(self), h.id)
                        }
                    },
                }
            },
    {
        if self.check_lost() {
            return ;
        }
        let h = match buffer {
            Some(h) => h,
            None => return ,
        };
        if !self.validate_buffer_ownership(h) {
            return self.webgl_error(WebGLError::InvalidOperation);
        }
        let idx = (h.id - 1) as usize;
        if self.state.buffers[idx].marked_for_deletion {
            return ;
        }
        self.delete_buffer_inner(h.id);
    }

    /// The sweep-and-mark half of `DeleteBuffer`, once validation has
    /// passed.
    #[verifier::rlimit(100)]
    fn delete_buffer_inner(&mut self, id: u32)
        requires
            old(self).valid(),
            !old(self).lost,
            0 < id <= old(self).state.buffers@.len(),
            !old(self).state.buffers@[id - 1].marked_for_deletion,
        ensures
            final(self).valid(),
            delete_buffer_applied(*old(self), *final(self), id),
    {
        let idx = (id - 1) as usize;
        let ghost pre = *self;
        let cv = self.state.current_vao as usize;
        let ghost attribs0 = self.state.vaos@[cv as int].attribs@;
        let mut hits: u32 = unbind_attribs(&mut self.state.vaos[cv].attribs, id);
        let ghost vao0 = pre.state.vaos@[cv as int];
        let ghost elem_hit = vao0.element_array_buffer == Some(id);
        let ghost arr_hit = pre.state.bound_array_buffer == Some(id);
        let ghost b0 = pre.state.buffers@[id - 1];
        if self.state.vaos[cv].element_array_buffer == Some(id) {
            self.state.vaos[cv].element_array_buffer = None;
            hits = hits + 1;
        }
        if self.state.bound_array_buffer == Some(id) {
            self.state.bound_array_buffer = None;
            hits = hits + 1;
        }
        let b_attached = self.state.buffers[idx].attached;
        let attached2: u32 = if b_attached >= hits {
            b_attached - hits
        } else {
            0
        };
        self.state.buffers[idx].marked_for_deletion = true;
        self.state.buffers[idx].attached = attached2;
        self.state.buffers[idx].released = attached2 == 0;
        if attached2 == 0 {
            self.send_command(WebGLCommand::DeleteBuffer(id));
        }
        proof {
            assert(self.state.vaos@ =~= pre.state.vaos@.update(
                cv as int,
                VertexArrayState {
                    element_array_buffer: if elem_hit {
                        None
                    } else {
                        vao0.element_array_buffer
                    },
                    attribs: self.state.vaos@[cv as int].attribs,
                    ..vao0
                },
            ));
            assert(self.state.buffers@ =~= pre.state.buffers@.update(
                id - 1,
                BufferState {
                    marked_for_deletion: true,
                    attached: attached2,
                    released: attached2 == 0,
                    ..b0
                },
            ));
            assert forall|k: int| 0 <= k < self.state.vaos@.len() implies crate::context::vao_wf(
                #[trigger] self.state.vaos@[k],
                self.state,
                self.limits,
            ) by {
                let v = self.state.vaos@[k];
                assert(self.state.buffers@.len() == pre.state.buffers@.len());
                if k == cv as int {
                    assert forall|i2: int|
                        0 <= i2 < v.attribs@.len() implies crate::context::opt_id_in(
                        #[trigger] v.attribs@[i2].buffer,
                        self.state.buffers@.len(),
                    ) by {
                        assert(v.attribs@[i2] == attrib_after_unbind(attribs0[i2], id));
                        assert(crate::context::opt_id_in(
                            attribs0[i2].buffer,
                            pre.state.buffers@.len(),
                        ));
                    }
                } else {
                    assert(v == pre.state.vaos@[k]);
                    assert(crate::context::vao_wf(v, pre.state, pre.limits));
                }
            }
        }
    }

    /// Deletes a framebuffer: unbinds it if it is the bound one —
    /// restoring the default framebuffer — marks it deleted and releases
    /// it. Deleting through a foreign handle is rejected with
    /// `InvalidOperation`; deleting nothing or an already deleted object
    /// is a no-op.
    pub fn DeleteFramebuffer(&mut self, framebuffer: Option<&WebGLFramebuffer>)
        requires
            old(self).valid(),
        ensures
            final(self).valid(),
            if old(self).lost {
                rejected(*old(self), *final(self), WebGLError::ContextLost)
            } else {
                match framebuffer {
                    None => unchanged(*old(self), *final(self)),
                    Some(h) => {
                        if !old(self).owns_framebuffer(*h) {
                            rejected(*old(self), *final(self), WebGLError::InvalidOperation)
                        } else if old(self).state.framebuffers@[h.id - 1].deleted {
                            unchanged(*old(self), *final(self))
                        } else {
                            let s = old(self).state;
                            let hit = s.bound_framebuffer == Some(h.id);
                            applied(
                                *old(self),
                                *final(self),
                                ContextState {
                                    bound_framebuffer: if hit {
                                        None
                                    } else {
                                        s.bound_framebuffer
                                    },
                                    framebuffers: final(self).state.framebuffers,
                                    ..s
                                },
                                (if hit {
                                    seq![
                                        WebGLCommand::BindFramebuffer(
                                            constants::FRAMEBUFFER,
                                            crate::command::FramebufferBinding::Default,
                                        ),
                                    ]
                                } else {
                                    Seq::empty()
                                }) + seq![WebGLCommand::DeleteFramebuffer(h.id)],
                            ) && final(self).state.framebuffers@ == s.framebuffers@.update(
                                h.id - 1,
                                FramebufferState { deleted: true, ..s.framebuffers@[h.id - 1] },
                            )
                        }
                    },
                }
            },
    {
        if self.check_lost() {
            return ;
        }
        let h = match framebuffer {
            Some(h) => h,
            None => return ,
        };
        if !self.validate_framebuffer_ownership(h) {
            return self.webgl_error(WebGLError::InvalidOperation);
        }
        let idx = (h.id - 1) as usize;
        if self.state.framebuffers[idx].deleted {
            return ;
        }
        let ghost pre = self.outbox@;
        let ghost hit = self.state.bound_framebuffer == Some(h.id);
        if self.state.bound_framebuffer == Some(h.id) {
            self.state.bound_framebuffer = None;
            self.send_command(
                WebGLCommand::BindFramebuffer(
                    constants::FRAMEBUFFER,
                    crate::command::FramebufferBinding::Default,
                ),
            );
        }
        self.state.framebuffers[idx].deleted = true;
        self.send_command(WebGLCommand::DeleteFramebuffer(h.id));
        proof {
            assert(self.outbox@ =~= pre + ((if hit {
                seq![
                    WebGLCommand::BindFramebuffer(
                        constants::FRAMEBUFFER,
                        crate::command::FramebufferBinding::Default,
                    ),
                ]
            } else {
                Seq::empty()
            }) + seq![WebGLCommand::DeleteFramebuffer(h.id)]));
        }
    }

    /// Deletes a renderbuffer: unbinds it if it is the bound one, marks
    /// it deleted and releases it. Deleting through a foreign handle is
    /// rejected with `InvalidOperation`; deleting nothing or an already
    /// deleted object is a no-op.
    pub fn DeleteRenderbuffer(&mut self, renderbuffer: Option<&WebGLRenderbuffer>)
        requires
            old(self).valid(),
        ensures
            final(self).valid(),
            if old(self).lost {
                rejected(*old(self), *final(self), WebGLError::ContextLost)
            } else {
                match renderbuffer {
                    None => unchanged(*old(self), *final(self)),
                    Some(h) => {
                        if !old(self).owns_renderbuffer(*h) {
                            rejected(*old(self), *final(self), WebGLError::InvalidOperation)
                        } else if old(self).state.renderbuffers@[h.id - 1].deleted {
                            unchanged(*old(self), *final(self))
                        } else {
                            let s = old(self).state;
                            let hit = s.bound_renderbuffer == Some(h.id);
                            applied(
                                *old(self),
                                *final(self),
                                ContextState {
                                    bound_renderbuffer: if hit {
                                        None
                                    } else {
                                        s.bound_renderbuffer
                                    },
                                    renderbuffers: final(self).state.renderbuffers,
                                    ..s
                                },
                                (if hit {
                                    seq![
                                        WebGLCommand::BindRenderbuffer(
                                            constants::RENDERBUFFER,
                                            None,
                                        ),
                                    ]
                                } else {
                                    Seq::empty()
                                }) + seq![WebGLCommand::DeleteRenderbuffer(h.id)],
                            ) && final(self).state.renderbuffers@ == s.renderbuffers@.update(
                                h.id - 1,
                                RenderbufferState { deleted: true, ..s.renderbuffers@[h.id - 1] },
                            )
                        }
                    },
                }
            },
    {
        if self.check_lost() {
            return ;
        }
        let h = match renderbuffer {
            Some(h) => h,
            None => return ,
        };
        if !self.validate_renderbuffer_ownership(h) {
            return self.webgl_error(WebGLError::InvalidOperation);
        }
        let idx = (h.id - 1) as usize;
        if self.state.renderbuffers[idx].deleted {
            return ;
        }
        let ghost pre = self.outbox@;
        let ghost hit = self.state.bound_renderbuffer == Some(h.id);
        if self.state.bound_renderbuffer == Some(h.id) {
            self.state.bound_renderbuffer = None;
            self.send_command(WebGLCommand::BindRenderbuffer(constants::RENDERBUFFER, None));
        }
        self.state.renderbuffers[idx].deleted = true;
        self.send_command(WebGLCommand::DeleteRenderbuffer(h.id));
        proof {
            assert(self.outbox@ =~= pre + ((if hit {
                seq![WebGLCommand::BindRenderbuffer(constants::RENDERBUFFER, None)]
            } else {
                Seq::empty()
            }) + seq![WebGLCommand::DeleteRenderbuffer(h.id)]));
        }
    }

    /// Marks a program for deletion; the object is released only once it
    /// is no longer the program in use. Deleting through a foreign handle
    /// is rejected with `InvalidOperation`; deleting nothing or an
    /// already marked program is a no-op.
    pub fn DeleteProgram(&mut self, program: Option<&crate::objects::WebGLProgram>)
        requires
            old(self).valid(),
        ensures
            final(self).valid(),
            if old(self).lost {
                rejected(*old(self), *final(self), WebGLError::ContextLost)
            } else {
                match program {
                    None => unchanged(*old(self), *final(self)),
                    Some(h) => {
                        if !old(self).owns_program(*h) {
                            rejected(*old(self), *final(self), WebGLError::InvalidOperation)
                        } else if old(self).state.programs@[h.id - 1].marked_for_deletion {
                            unchanged(*old(self), *final(self))
                        } else {
                            let s = old(self).state;
                            let p0 = s.programs@[h.id - 1];
                            applied(
                                *old(self),
                                *final(self),
                                ContextState { programs: final(self).state.programs, ..s },
                                if p0.in_use {
                                    Seq::empty()
                                } else {
                                    seq![WebGLCommand::DeleteProgram(h.id)]
                                },
                            ) && final(self).state.programs@ == s.programs@.update(
                                h.id - 1,
                                crate::objects::ProgramState { marked_for_deletion: true, ..p0 },
                            )
                        }
                    },
                }
            },
    {
        if self.check_lost() {
            return ;
        }
        let h = match program {
            Some(h) => h,
            None => return ,
        };
        if !self.validate_program_ownership(h) {
            return self.webgl_error(WebGLError::InvalidOperation);
        }
        let idx = (h.id - 1) as usize;
        if self.state.programs[idx].marked_for_deletion {
            return ;
        }
        let in_use = self.state.programs[idx].in_use;
        self.state.programs[idx].marked_for_deletion = true;
        if !in_use {
            self.send_command(WebGLCommand::DeleteProgram(h.id));
        }
    }

    /// Marks a shader for deletion and releases it. Deleting through a
    /// foreign handle is rejected with `InvalidOperation`; deleting
    /// nothing or an already marked shader is a no-op.
    pub fn DeleteShader(&mut self, shader: Option<&crate::objects::WebGLShader>)
        requires
            old(self).valid(),
        ensures
            final(self).valid(),
            if old(self).lost {
                rejected(*old(self), *final(self), WebGLError::ContextLost)
            } else {
                match shader {
                    None => unchanged(*old(self), *final(self)),
                    Some(h) => {
                        if !old(self).owns_shader(*h) {
                            rejected(*old(self), *final(self), WebGLError::InvalidOperation)
                        } else if old(self).state.shaders@[h.id - 1].marked_for_deletion {
                            unchanged(*old(self), *final(self))
                        } else {
                            let s = old(self).state;
                            applied(
                                *old(self),
                                *final(self),
                                ContextState { shaders: final(self).state.shaders, ..s },
                                seq![WebGLCommand::DeleteShader(h.id)],
                            ) && final(self).state.shaders@ == s.shaders@.update(
                                h.id - 1,
                                crate::objects::ShaderState {
                                    marked_for_deletion: true,
                                    ..s.shaders@[h.id - 1]
                                },
                            )
                        }
                    },
                }
            },
    {
        if self.check_lost() {
            return ;
        }
        let h = match shader {
            Some(h) => h,
            None => return ,
        };
        if !self.validate_shader_ownership(h) {
            return self.webgl_error(WebGLError::InvalidOperation);
        }
        let idx = (h.id - 1) as usize;
        if self.state.shaders[idx].marked_for_deletion {
            return ;
        }
        self.state.shaders[idx].marked_for_deletion = true;
        self.send_command(WebGLCommand::DeleteShader(h.id));
    }

    /// Deletes a vertex array object: if it is the current one the
    /// default object becomes current, then it is marked deleted and
    /// released. Deleting through a foreign handle is rejected with
    /// `InvalidOperation`; deleting nothing or an already deleted object
    /// is a no-op.
    #[verifier::rlimit(100)]
    pub fn delete_vertex_array(&mut self, vao: Option<&WebGLVertexArrayObjectOES>)
        requires
            old(self).valid(),
        ensures
            final(self).valid(),
            if old(self).lost {
                rejected(*old(self), *final(self), WebGLError::ContextLost)
            } else {
                match vao {
                    None => unchanged(*old(self), *final(self)),
                    Some(h) => {
                        if !old(self).owns_vao(*h) {
                            rejected(*old(self), *final(self), WebGLError::InvalidOperation)
                        } else if old(self).state.vaos@[h.id as int].deleted {
                            unchanged(*old(self), *final(self))
                        } else {
                            let s = old(self).state;
                            let hit = s.current_vao == h.id;
                            applied(
                                *old(self),
                                *final(self),
                                ContextState {
                                    current_vao: if hit {
                                        0
                                    } else {
                                        s.current_vao
                                    },
                                    vaos: final(self).state.vaos,
                                    ..s
                                },
                                (if hit {
                                    seq![WebGLCommand::BindVertexArray(None)]
                                } else {
                                    Seq::empty()
                                }) + seq![WebGLCommand::DeleteVertexArray(h.id)],
                            ) && final(self).state.vaos@ == s.vaos@.update(
                                h.id as int,
                                VertexArrayState { deleted: true, ..s.vaos@[h.id as int] },
                            )
                        }
                    },
                }
            },
    {
        if self.check_lost() {
            return ;
        }
        let h = match vao {
            Some(h) => h,
            None => return ,
        };
        if !self.validate_vao_ownership(h) {
            return self.webgl_error(WebGLError::InvalidOperation);
        }
        let idx = h.id as usize;
        if self.state.vaos[idx].deleted {
            return ;
        }
        let ghost pre = self.outbox@;
        let ghost hit = self.state.current_vao == h.id;
        if self.state.current_vao == h.id {
            self.state.current_vao = 0;
            self.send_command(WebGLCommand::BindVertexArray(None));
        }
        self.state.vaos[idx].deleted = true;
        self.send_command(WebGLCommand::DeleteVertexArray(h.id));
        proof {
            assert(self.outbox@ =~= pre + ((if hit {
                seq![WebGLCommand::BindVertexArray(None)]
            } else {
                Seq::empty()
            }) + seq![WebGLCommand::DeleteVertexArray(h.id)]));
        }
    }
}

} // verus!

