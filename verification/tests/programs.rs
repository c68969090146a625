use webgl_core::command::WebGLCommand;
use webgl_core::context::WebGLRenderingContext;
use webgl_core::limits::GLLimits;
use webgl_core::objects::{ActiveUniformInfo, LinkOutcome};

fn ctx() -> WebGLRenderingContext {
    WebGLRenderingContext::new_inherited(1, (64, 64), GLLimits::minimal())
}

fn mat4_outcome() -> LinkOutcome {
    LinkOutcome {
        linked: true,
        active_attribs: Vec::new(),
        active_uniforms: vec![
            ActiveUniformInfo {
                name: String::from("transform"),
                size: None,
                type_: webgl_core::constants::FLOAT_MAT4,
            },
            ActiveUniformInfo {
                name: String::from("sampler"),
                size: None,
                type_: webgl_core::constants::SAMPLER_2D,
            },
        ],
    }
}

#[test]
fn matrix_upload_with_transpose_is_rejected_regardless_of_data() {
    let mut c = ctx();
    let prog = c.CreateProgram().unwrap();
    c.LinkProgram(&prog, mat4_outcome());
    c.UseProgram(Some(&prog));
    let loc = c.GetUniformLocation(&prog, String::from("transform")).unwrap();
    let before = c.outbox.len();
    c.UniformMatrix4fv(Some(&loc), true, vec![0u32; 16]);
    assert_eq!(c.GetError(), webgl_core::constants::INVALID_VALUE);
    assert_eq!(c.outbox.len(), before);
    // the same data without the flag is accepted
    c.UniformMatrix4fv(Some(&loc), false, vec![0u32; 16]);
    assert_eq!(c.GetError(), webgl_core::constants::NO_ERROR);
    assert_eq!(c.outbox.len(), before + 1);
}

#[test]
fn matrix_upload_length_must_be_a_multiple_of_the_element_count() {
    let mut c = ctx();
    let prog = c.CreateProgram().unwrap();
    c.LinkProgram(&prog, mat4_outcome());
    c.UseProgram(Some(&prog));
    let loc = c.GetUniformLocation(&prog, String::from("transform")).unwrap();
    c.UniformMatrix4fv(Some(&loc), false, vec![0u32; 15]);
    assert_eq!(c.GetError(), webgl_core::constants::INVALID_VALUE);
    // a non-array uniform takes exactly one matrix
    c.UniformMatrix4fv(Some(&loc), false, vec![0u32; 32]);
    assert_eq!(c.GetError(), webgl_core::constants::INVALID_OPERATION);
}

#[test]
fn relinking_invalidates_previously_captured_locations() {
    let mut c = ctx();
    let prog = c.CreateProgram().unwrap();
    c.LinkProgram(&prog, mat4_outcome());
    c.UseProgram(Some(&prog));
    let stale = c.GetUniformLocation(&prog, String::from("transform")).unwrap();
    // the location works before the relink
    c.UniformMatrix4fv(Some(&stale), false, vec![0u32; 16]);
    assert_eq!(c.GetError(), webgl_core::constants::NO_ERROR);
    // relink, then use the stale location: rejected, not silently dropped
    c.LinkProgram(&prog, mat4_outcome());
    let before = c.outbox.len();
    c.UniformMatrix4fv(Some(&stale), false, vec![0u32; 16]);
    assert_eq!(c.GetError(), webgl_core::constants::INVALID_OPERATION);
    assert_eq!(c.outbox.len(), before);
    // a freshly captured location works again
    let fresh = c.GetUniformLocation(&prog, String::from("transform")).unwrap();
    c.UniformMatrix4fv(Some(&fresh), false, vec![0u32; 16]);
    assert_eq!(c.GetError(), webgl_core::constants::NO_ERROR);
}

#[test]
fn sampler_uniforms_require_a_unit_inside_the_limit() {
    let mut c = ctx();
    let prog = c.CreateProgram().unwrap();
    c.LinkProgram(&prog, mat4_outcome());
    c.UseProgram(Some(&prog));
    let loc = c.GetUniformLocation(&prog, String::from("sampler")).unwrap();
    c.Uniform1i(Some(&loc), -1);
    assert_eq!(c.GetError(), webgl_core::constants::INVALID_VALUE);
    c.Uniform1i(Some(&loc), 8);
    assert_eq!(c.GetError(), webgl_core::constants::INVALID_VALUE);
    c.Uniform1i(Some(&loc), 7);
    assert_eq!(c.GetError(), webgl_core::constants::NO_ERROR);
    assert_eq!(c.outbox.last().unwrap().clone(), WebGLCommand::Uniform1i(loc.id, 7));
}

#[test]
fn uniform_upload_to_a_mistyped_location_is_an_operation_failure() {
    let mut c = ctx();
    let prog = c.CreateProgram().unwrap();
    c.LinkProgram(&prog, mat4_outcome());
    c.UseProgram(Some(&prog));
    let loc = c.GetUniformLocation(&prog, String::from("transform")).unwrap();
    c.Uniform1i(Some(&loc), 0);
    assert_eq!(c.GetError(), webgl_core::constants::INVALID_OPERATION);
}

#[test]
fn unknown_uniform_names_report_no_location_and_no_error() {
    let mut c = ctx();
    let prog = c.CreateProgram().unwrap();
    c.LinkProgram(&prog, mat4_outcome());
    assert!(c.GetUniformLocation(&prog, String::from("missing")).is_none());
    assert_eq!(c.GetError(), webgl_core::constants::NO_ERROR);
}

#[test]
fn using_an_unlinked_program_is_rejected() {
    let mut c = ctx();
    let prog = c.CreateProgram().unwrap();
    c.UseProgram(Some(&prog));
    assert_eq!(c.GetError(), webgl_core::constants::INVALID_OPERATION);
    assert_eq!(c.state.current_program, None);
}

#[test]
fn zero_count_draw_succeeds_without_a_command() {
    let mut c = ctx();
    let prog = c.CreateProgram().unwrap();
    c.LinkProgram(&prog, mat4_outcome());
    c.UseProgram(Some(&prog));
    let before = c.outbox.len();
    assert!(c.draw_arrays_instanced(webgl_core::constants::TRIANGLES, 0, 0, 1).is_ok());
    assert_eq!(c.outbox.len(), before);
    // zero instance count is the same defined no-op
    assert!(c.draw_arrays_instanced(webgl_core::constants::TRIANGLES, 0, 3, 0).is_ok());
    assert_eq!(c.outbox.len(), before);
    assert_eq!(c.GetError(), webgl_core::constants::NO_ERROR);
    // a positive draw is encoded
    assert!(c.draw_arrays_instanced(webgl_core::constants::TRIANGLES, 0, 3, 1).is_ok());
    assert_eq!(
        c.outbox.last().unwrap().clone(),
        WebGLCommand::DrawArrays { mode: webgl_core::constants::TRIANGLES, first: 0, count: 3 }
    );
}

#[test]
fn draw_rejects_unknown_topology_and_negative_counts() {
    let mut c = ctx();
    let prog = c.CreateProgram().unwrap();
    c.LinkProgram(&prog, mat4_outcome());
    c.UseProgram(Some(&prog));
    assert_eq!(
        c.draw_arrays_instanced(0x4242, 0, 3, 1),
        Err(webgl_core::error::WebGLError::InvalidEnum)
    );
    assert_eq!(
        c.draw_arrays_instanced(webgl_core::constants::TRIANGLES, -1, 3, 1),
        Err(webgl_core::error::WebGLError::InvalidValue)
    );
}

#[test]
fn draw_without_a_program_is_an_operation_failure() {
    let mut c = ctx();
    assert_eq!(
        c.draw_arrays_instanced(webgl_core::constants::POINTS, 0, 1, 1),
        Err(webgl_core::error::WebGLError::InvalidOperation)
    );
}

#[test]
fn indexed_draw_checks_offset_alignment_and_buffer_capacity() {
    let mut c = ctx();
    let prog = c.CreateProgram().unwrap();
    c.LinkProgram(&prog, mat4_outcome());
    c.UseProgram(Some(&prog));
    let buf = c.CreateBuffer().unwrap();
    c.BindBuffer(webgl_core::constants::ELEMENT_ARRAY_BUFFER, Some(&buf));
    c.BufferData_(webgl_core::constants::ELEMENT_ARRAY_BUFFER, 6, webgl_core::constants::STATIC_DRAW);
    assert_eq!(c.GetError(), webgl_core::constants::NO_ERROR);
    let tris = webgl_core::constants::TRIANGLES;
    let ushort = webgl_core::constants::UNSIGNED_SHORT;
    // misaligned offset
    assert_eq!(
        c.draw_elements_instanced(tris, 3, ushort, 1, 1),
        Err(webgl_core::error::WebGLError::InvalidOperation)
    );
    // capacity of six bytes holds three sixteen-bit indices, not four
    assert_eq!(
        c.draw_elements_instanced(tris, 4, ushort, 0, 1),
        Err(webgl_core::error::WebGLError::InvalidOperation)
    );
    assert!(c.draw_elements_instanced(tris, 3, ushort, 0, 1).is_ok());
    assert_eq!(
        c.outbox.last().unwrap().clone(),
        WebGLCommand::DrawElements { mode: tris, count: 3, type_: ushort, offset: 0 }
    );
    // unsigned int indices need their capability set
    assert_eq!(
        c.draw_elements_instanced(tris, 1, webgl_core::constants::UNSIGNED_INT, 0, 1),
        Err(webgl_core::error::WebGLError::InvalidEnum)
    );
}

#[test]
fn draw_with_an_enabled_unbacked_attribute_is_rejected() {
    let mut c = ctx();
    let prog = c.CreateProgram().unwrap();
    let outcome = LinkOutcome {
        linked: true,
        active_attribs: vec![webgl_core::objects::ActiveAttribInfo {
            name: String::from("position"),
            size: 1,
            type_: webgl_core::constants::FLOAT_VEC4,
            location: 0,
        }],
        active_uniforms: Vec::new(),
    };
    c.LinkProgram(&prog, outcome);
    c.UseProgram(Some(&prog));
    c.EnableVertexAttribArray(0);
    assert_eq!(
        c.draw_arrays_instanced(webgl_core::constants::TRIANGLES, 0, 3, 1),
        Err(webgl_core::error::WebGLError::InvalidOperation)
    );
    c.DisableVertexAttribArray(0);
    assert!(c.draw_arrays_instanced(webgl_core::constants::TRIANGLES, 0, 3, 1).is_ok());
}

#[test]
fn buffer_data_validates_usage_and_records_capacity() {
    let mut c = ctx();
    let buf = c.CreateBuffer().unwrap();
    c.BindBuffer(webgl_core::constants::ARRAY_BUFFER, Some(&buf));
    c.BufferData(webgl_core::constants::ARRAY_BUFFER, Some(vec![1, 2, 3, 4]), 0x1234);
    assert_eq!(c.GetError(), webgl_core::constants::INVALID_ENUM);
    c.BufferData(
        webgl_core::constants::ARRAY_BUFFER,
        Some(vec![1, 2, 3, 4]),
        webgl_core::constants::STATIC_DRAW,
    );
    assert_eq!(c.GetError(), webgl_core::constants::NO_ERROR);
    assert_eq!(c.state.buffers[(buf.id - 1) as usize].capacity, 4);
    // a sub-range update beyond the capacity is rejected
    c.BufferSubData(webgl_core::constants::ARRAY_BUFFER, 2, vec![9, 9, 9]);
    assert_eq!(c.GetError(), webgl_core::constants::INVALID_VALUE);
    c.BufferSubData(webgl_core::constants::ARRAY_BUFFER, 1, vec![9, 9, 9]);
    assert_eq!(c.GetError(), webgl_core::constants::NO_ERROR);
}

#[test]
fn buffer_data_without_a_binding_is_an_operation_failure() {
    let mut c = ctx();
    c.BufferData(
        webgl_core::constants::ARRAY_BUFFER,
        Some(vec![1]),
        webgl_core::constants::STATIC_DRAW,
    );
    assert_eq!(c.GetError(), webgl_core::constants::INVALID_OPERATION);
    c.BufferData(webgl_core::constants::ARRAY_BUFFER, None, webgl_core::constants::STATIC_DRAW);
    assert_eq!(c.GetError(), webgl_core::constants::INVALID_VALUE);
}
