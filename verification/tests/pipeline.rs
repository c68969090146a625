use webgl_core::command::WebGLCommand;
use webgl_core::context::WebGLRenderingContext;
use webgl_core::limits::GLLimits;
use webgl_core::objects::{ActiveAttribInfo, LinkOutcome};
use webgl_core::queries::ParameterAnswer;

fn ctx() -> WebGLRenderingContext {
    WebGLRenderingContext::new_inherited(1, (64, 64), GLLimits::minimal())
}

fn linked_program_with_attrib(c: &mut WebGLRenderingContext) -> webgl_core::objects::WebGLProgram {
    let prog = c.CreateProgram().unwrap();
    let outcome = LinkOutcome {
        linked: true,
        active_attribs: vec![ActiveAttribInfo {
            name: String::from("position"),
            size: 1,
            type_: webgl_core::constants::FLOAT_VEC4,
            location: 0,
        }],
        active_uniforms: Vec::new(),
    };
    c.LinkProgram(&prog, outcome);
    c.UseProgram(Some(&prog));
    prog
}

#[test]
fn vertex_attrib_pointer_validates_layout_and_binding() {
    let mut c = ctx();
    // no array buffer bound
    c.VertexAttribPointer(0, 4, webgl_core::constants::FLOAT, false, 0, 0);
    assert_eq!(c.GetError(), webgl_core::constants::INVALID_OPERATION);
    let buf = c.CreateBuffer().unwrap();
    c.BindBuffer(webgl_core::constants::ARRAY_BUFFER, Some(&buf));
    // illegal size, stride, offset alignment, type
    c.VertexAttribPointer(0, 5, webgl_core::constants::FLOAT, false, 0, 0);
    assert_eq!(c.GetError(), webgl_core::constants::INVALID_VALUE);
    c.VertexAttribPointer(0, 4, webgl_core::constants::FLOAT, false, 256, 0);
    assert_eq!(c.GetError(), webgl_core::constants::INVALID_VALUE);
    c.VertexAttribPointer(0, 4, 0x9999, false, 0, 0);
    assert_eq!(c.GetError(), webgl_core::constants::INVALID_ENUM);
    c.VertexAttribPointer(0, 4, webgl_core::constants::FLOAT, false, 0, 2);
    assert_eq!(c.GetError(), webgl_core::constants::INVALID_OPERATION);
    // a legal pointer lands in the current vertex array object
    c.VertexAttribPointer(0, 4, webgl_core::constants::FLOAT, false, 0, 0);
    assert_eq!(c.GetError(), webgl_core::constants::NO_ERROR);
    let d = c.state.vaos[0].attribs[0];
    assert_eq!(d.buffer, Some(buf.id));
    assert_eq!(d.size, 4);
    assert_eq!(
        c.outbox.last().unwrap().clone(),
        WebGLCommand::VertexAttribPointer(0, 4, webgl_core::constants::FLOAT, false, 0, 0)
    );
}

#[test]
fn draw_requires_attribute_buffers_to_cover_the_vertex_range() {
    let mut c = ctx();
    let prog = linked_program_with_attrib(&mut c);
    let buf = c.CreateBuffer().unwrap();
    c.BindBuffer(webgl_core::constants::ARRAY_BUFFER, Some(&buf));
    // sixteen bytes of data: exactly one four-float vertex
    c.BufferData_(webgl_core::constants::ARRAY_BUFFER, 16, webgl_core::constants::STATIC_DRAW);
    c.VertexAttribPointer(0, 4, webgl_core::constants::FLOAT, false, 0, 0);
    c.EnableVertexAttribArray(0);
    assert_eq!(c.GetError(), webgl_core::constants::NO_ERROR);
    // one vertex is covered, three are not
    assert!(c.draw_arrays_instanced(webgl_core::constants::POINTS, 0, 1, 1).is_ok());
    assert_eq!(
        c.draw_arrays_instanced(webgl_core::constants::POINTS, 0, 3, 1),
        Err(webgl_core::error::WebGLError::InvalidOperation)
    );
    // growing the buffer makes the range legal
    c.BufferData_(webgl_core::constants::ARRAY_BUFFER, 48, webgl_core::constants::STATIC_DRAW);
    assert!(c.draw_arrays_instanced(webgl_core::constants::POINTS, 0, 3, 1).is_ok());
    let _ = prog;
}

#[test]
fn get_parameter_answers_bindings_limits_and_queries() {
    let mut c = ctx();
    assert_eq!(
        c.GetParameter(webgl_core::constants::ARRAY_BUFFER_BINDING),
        ParameterAnswer::Object(None)
    );
    let buf = c.CreateBuffer().unwrap();
    c.BindBuffer(webgl_core::constants::ARRAY_BUFFER, Some(&buf));
    assert_eq!(
        c.GetParameter(webgl_core::constants::ARRAY_BUFFER_BINDING),
        ParameterAnswer::Object(Some(buf.id))
    );
    assert_eq!(
        c.GetParameter(webgl_core::constants::MAX_VERTEX_ATTRIBS),
        ParameterAnswer::Uint(8)
    );
    assert_eq!(
        c.GetParameter(webgl_core::constants::DITHER),
        ParameterAnswer::Boolean(true)
    );
    assert_eq!(
        c.GetParameter(webgl_core::constants::UNPACK_ALIGNMENT),
        ParameterAnswer::Uint(4)
    );
    // a backend parameter encodes the query
    let before = c.outbox.len();
    assert_eq!(
        c.GetParameter(webgl_core::constants::ACTIVE_TEXTURE),
        ParameterAnswer::Query
    );
    assert_eq!(
        c.outbox.last().unwrap().clone(),
        WebGLCommand::GetParameter(webgl_core::constants::ACTIVE_TEXTURE)
    );
    assert_eq!(c.outbox.len(), before + 1);
    // an extension name needs its capability set
    assert_eq!(
        c.GetParameter(webgl_core::constants::VERTEX_ARRAY_BINDING_OES),
        ParameterAnswer::Rejected
    );
    assert_eq!(c.GetError(), webgl_core::constants::INVALID_ENUM);
    // an unknown name is rejected
    assert_eq!(c.GetParameter(0xBEEF), ParameterAnswer::Rejected);
    assert_eq!(c.GetError(), webgl_core::constants::INVALID_ENUM);
    match c.GetParameter(webgl_core::constants::VERSION) {
        ParameterAnswer::Text(t) => assert_eq!(t, "WebGL 1.0"),
        other => panic!("unexpected answer {:?}", other),
    }
}

#[test]
fn read_pixels_validates_and_clips() {
    let mut c = ctx();
    // missing destination
    assert!(c.ReadPixels(0, 0, 4, 4, webgl_core::constants::RGBA,
        webgl_core::constants::UNSIGNED_BYTE, None).is_err());
    assert_eq!(c.GetError(), webgl_core::constants::INVALID_VALUE);
    // wrong format
    assert!(c.ReadPixels(0, 0, 4, 4, webgl_core::constants::RGB,
        webgl_core::constants::UNSIGNED_BYTE, Some((64, 1))).is_err());
    assert_eq!(c.GetError(), webgl_core::constants::INVALID_OPERATION);
    // destination too small: four by four RGBA bytes need 64
    assert!(c.ReadPixels(0, 0, 4, 4, webgl_core::constants::RGBA,
        webgl_core::constants::UNSIGNED_BYTE, Some((63, 1))).is_err());
    assert_eq!(c.GetError(), webgl_core::constants::INVALID_OPERATION);
    // a read that straddles the corner is clipped to the surface
    let before = c.outbox.len();
    assert!(c.ReadPixels(-2, -2, 4, 4, webgl_core::constants::RGBA,
        webgl_core::constants::UNSIGNED_BYTE, Some((64, 1))).is_ok());
    assert_eq!(
        c.outbox.last().unwrap().clone(),
        WebGLCommand::ReadPixels {
            x: 0,
            y: 0,
            width: 2,
            height: 2,
            format: webgl_core::constants::RGBA,
            pixel_type: webgl_core::constants::UNSIGNED_BYTE,
        }
    );
    assert_eq!(c.outbox.len(), before + 1);
    // a fully off-surface read sends nothing
    assert!(c.ReadPixels(100, 100, 4, 4, webgl_core::constants::RGBA,
        webgl_core::constants::UNSIGNED_BYTE, Some((64, 1))).is_ok());
    assert_eq!(c.outbox.len(), before + 1);
    assert_eq!(c.GetError(), webgl_core::constants::NO_ERROR);
}

#[test]
fn tex_sub_image_respects_the_recorded_level() {
    let mut c = ctx();
    let tex = c.CreateTexture().unwrap();
    let t2d = webgl_core::constants::TEXTURE_2D;
    let rgba = webgl_core::constants::RGBA;
    let ub = webgl_core::constants::UNSIGNED_BYTE;
    c.BindTexture(t2d, Some(&tex));
    // sub-update before any upload
    c.TexSubImage2D(t2d, 0, 0, 0, 1, 1, rgba, ub, Some(1), Some(vec![0u8; 4]));
    assert_eq!(c.GetError(), webgl_core::constants::INVALID_OPERATION);
    c.TexImage2D(t2d, 0, rgba, 4, 4, 0, rgba, ub, Some(1), Some(vec![0u8; 64]));
    assert_eq!(c.GetError(), webgl_core::constants::NO_ERROR);
    // a rectangle that leaves the level
    c.TexSubImage2D(t2d, 0, 3, 3, 2, 2, rgba, ub, Some(1), Some(vec![0u8; 16]));
    assert_eq!(c.GetError(), webgl_core::constants::INVALID_VALUE);
    // a mismatched format
    c.TexSubImage2D(t2d, 0, 0, 0, 2, 2, webgl_core::constants::RGB, ub, Some(1),
        Some(vec![0u8; 16]));
    assert_eq!(c.GetError(), webgl_core::constants::INVALID_OPERATION);
    // a legal sub-update is encoded and changes no tracked state
    let before = c.outbox.len();
    c.TexSubImage2D(t2d, 0, 1, 1, 2, 2, rgba, ub, Some(1), Some(vec![9u8; 16]));
    assert_eq!(c.GetError(), webgl_core::constants::NO_ERROR);
    assert_eq!(c.outbox.len(), before + 1);
}

#[test]
fn compressed_uploads_are_rejected_without_a_compression_capability() {
    let mut c = ctx();
    let tex = c.CreateTexture().unwrap();
    c.BindTexture(webgl_core::constants::TEXTURE_2D, Some(&tex));
    c.CompressedTexImage2D(webgl_core::constants::TEXTURE_2D, 0, 0x83F0, 4, 4, 0, vec![0u8; 8]);
    assert_eq!(c.GetError(), webgl_core::constants::INVALID_ENUM);
    c.CompressedTexSubImage2D(
        webgl_core::constants::TEXTURE_2D,
        0,
        0,
        0,
        4,
        4,
        0x83F0,
        vec![0u8; 8],
    );
    assert_eq!(c.GetError(), webgl_core::constants::INVALID_ENUM);
}

#[test]
fn get_uniform_rejects_stale_locations_and_queries_current_ones() {
    let mut c = ctx();
    let prog = c.CreateProgram().unwrap();
    let outcome = LinkOutcome {
        linked: true,
        active_attribs: Vec::new(),
        active_uniforms: vec![webgl_core::objects::ActiveUniformInfo {
            name: String::from("shade"),
            size: None,
            type_: webgl_core::constants::FLOAT,
        }],
    };
    c.LinkProgram(&prog, outcome.clone());
    c.UseProgram(Some(&prog));
    let loc = c.GetUniformLocation(&prog, String::from("shade")).unwrap();
    assert!(c.GetUniform(&prog, &loc).is_ok());
    assert_eq!(
        c.outbox.last().unwrap().clone(),
        WebGLCommand::GetUniform(prog.id, loc.id, webgl_core::constants::FLOAT)
    );
    c.LinkProgram(&prog, outcome);
    assert!(c.GetUniform(&prog, &loc).is_err());
    assert_eq!(c.GetError(), webgl_core::constants::INVALID_OPERATION);
}

#[test]
fn framebuffer_completeness_follows_its_attachments() {
    let mut c = ctx();
    let fb = c.CreateFramebuffer().unwrap();
    c.BindFramebuffer(webgl_core::constants::FRAMEBUFFER, Some(&fb));
    assert_eq!(
        c.CheckFramebufferStatus(webgl_core::constants::FRAMEBUFFER),
        webgl_core::constants::FRAMEBUFFER_INCOMPLETE_MISSING_ATTACHMENT
    );
    // a clear through an incomplete framebuffer is a framebuffer failure
    c.Clear(webgl_core::constants::COLOR_BUFFER_BIT);
    assert_eq!(
        c.GetError(),
        webgl_core::constants::INVALID_FRAMEBUFFER_OPERATION
    );
    // attach storage-backed color
    let rb = c.CreateRenderbuffer().unwrap();
    c.BindRenderbuffer(webgl_core::constants::RENDERBUFFER, Some(&rb));
    c.RenderbufferStorage(webgl_core::constants::RENDERBUFFER, webgl_core::constants::RGBA4, 1, 1);
    c.FramebufferRenderbuffer(
        webgl_core::constants::FRAMEBUFFER,
        webgl_core::constants::COLOR_ATTACHMENT0,
        webgl_core::constants::RENDERBUFFER,
        Some(&rb),
    );
    assert_eq!(c.GetError(), webgl_core::constants::NO_ERROR);
    assert_eq!(
        c.CheckFramebufferStatus(webgl_core::constants::FRAMEBUFFER),
        webgl_core::constants::FRAMEBUFFER_COMPLETE
    );
    c.Clear(webgl_core::constants::COLOR_BUFFER_BIT);
    assert_eq!(c.GetError(), webgl_core::constants::NO_ERROR);
    // the attachment answers the object-name query locally
    assert_eq!(
        c.GetFramebufferAttachmentParameter(
            webgl_core::constants::FRAMEBUFFER,
            webgl_core::constants::COLOR_ATTACHMENT0,
            webgl_core::constants::FRAMEBUFFER_ATTACHMENT_OBJECT_NAME,
        ),
        ParameterAnswer::Object(Some(rb.id))
    );
}

#[test]
fn renderbuffer_storage_validates_format_and_size() {
    let mut c = ctx();
    let rb = c.CreateRenderbuffer().unwrap();
    c.BindRenderbuffer(webgl_core::constants::RENDERBUFFER, Some(&rb));
    c.RenderbufferStorage(webgl_core::constants::RENDERBUFFER, 0x1234, 1, 1);
    assert_eq!(c.GetError(), webgl_core::constants::INVALID_ENUM);
    c.RenderbufferStorage(webgl_core::constants::RENDERBUFFER, webgl_core::constants::RGBA4, -1, 1);
    assert_eq!(c.GetError(), webgl_core::constants::INVALID_VALUE);
    c.RenderbufferStorage(webgl_core::constants::RENDERBUFFER, webgl_core::constants::RGBA4, 1, 1);
    assert_eq!(c.GetError(), webgl_core::constants::NO_ERROR);
    assert_eq!(
        c.GetRenderbufferParameter(
            webgl_core::constants::RENDERBUFFER,
            webgl_core::constants::RENDERBUFFER_INTERNAL_FORMAT,
        ),
        ParameterAnswer::Uint(webgl_core::constants::RGBA4)
    );
}

#[test]
fn shader_attachment_is_per_kind_and_exclusive() {
    let mut c = ctx();
    let prog = c.CreateProgram().unwrap();
    let vs = c.CreateShader(webgl_core::constants::VERTEX_SHADER).unwrap();
    let vs2 = c.CreateShader(webgl_core::constants::VERTEX_SHADER).unwrap();
    let fs = c.CreateShader(webgl_core::constants::FRAGMENT_SHADER).unwrap();
    c.AttachShader(&prog, &vs);
    assert_eq!(c.GetError(), webgl_core::constants::NO_ERROR);
    c.AttachShader(&prog, &vs2);
    assert_eq!(c.GetError(), webgl_core::constants::INVALID_OPERATION);
    c.AttachShader(&prog, &fs);
    assert_eq!(c.GetError(), webgl_core::constants::NO_ERROR);
    c.DetachShader(&prog, &vs2);
    assert_eq!(c.GetError(), webgl_core::constants::INVALID_OPERATION);
    c.DetachShader(&prog, &vs);
    assert_eq!(c.GetError(), webgl_core::constants::NO_ERROR);
    assert_eq!(
        c.GetProgramParameter(&prog, webgl_core::constants::ATTACHED_SHADERS),
        ParameterAnswer::Uint(1)
    );
}

#[test]
fn shader_source_round_trips_and_compile_is_reported() {
    let mut c = ctx();
    let vs = c.CreateShader(webgl_core::constants::VERTEX_SHADER).unwrap();
    c.ShaderSource(&vs, String::from("void main() {}"));
    assert_eq!(c.GetShaderSource(&vs).unwrap(), "void main() {}");
    c.CompileShader(&vs, true);
    assert_eq!(
        c.GetShaderParameter(&vs, webgl_core::constants::COMPILE_STATUS),
        ParameterAnswer::Boolean(true)
    );
    assert_eq!(
        c.outbox.last().unwrap().clone(),
        WebGLCommand::CompileShader(vs.id)
    );
}

#[test]
fn attrib_reflection_is_answered_from_the_link_outcome() {
    let mut c = ctx();
    let prog = linked_program_with_attrib(&mut c);
    assert_eq!(c.GetAttribLocation(&prog, String::from("position")), 0);
    assert_eq!(c.GetAttribLocation(&prog, String::from("missing")), -1);
    assert_eq!(c.GetError(), webgl_core::constants::NO_ERROR);
    let info = c.GetActiveAttrib(&prog, 0).unwrap();
    assert_eq!(info.name, "position");
    assert!(c.GetActiveAttrib(&prog, 1).is_none());
    assert_eq!(c.GetError(), webgl_core::constants::INVALID_VALUE);
}

#[test]
fn texture_parameters_track_filters_and_gate_names() {
    let mut c = ctx();
    let tex = c.CreateTexture().unwrap();
    let t2d = webgl_core::constants::TEXTURE_2D;
    c.BindTexture(t2d, Some(&tex));
    c.TexParameteri(t2d, webgl_core::constants::TEXTURE_MAG_FILTER,
        webgl_core::constants::NEAREST as i32);
    assert_eq!(c.GetError(), webgl_core::constants::NO_ERROR);
    assert_eq!(
        c.GetTexParameter(t2d, webgl_core::constants::TEXTURE_MAG_FILTER),
        ParameterAnswer::Uint(webgl_core::constants::NEAREST)
    );
    c.TexParameteri(t2d, webgl_core::constants::TEXTURE_MAG_FILTER, 0x1234);
    assert_eq!(c.GetError(), webgl_core::constants::INVALID_ENUM);
    c.TexParameteri(t2d, 0x9999, webgl_core::constants::NEAREST as i32);
    assert_eq!(c.GetError(), webgl_core::constants::INVALID_ENUM);
    // wrap modes are backend queries
    assert_eq!(
        c.GetTexParameter(t2d, webgl_core::constants::TEXTURE_WRAP_S),
        ParameterAnswer::Query
    );
}

#[test]
fn generate_mipmap_needs_a_base_image() {
    let mut c = ctx();
    let tex = c.CreateTexture().unwrap();
    let t2d = webgl_core::constants::TEXTURE_2D;
    c.BindTexture(t2d, Some(&tex));
    c.GenerateMipmap(t2d);
    assert_eq!(c.GetError(), webgl_core::constants::INVALID_OPERATION);
    let rgba = webgl_core::constants::RGBA;
    c.TexImage2D(t2d, 0, rgba, 2, 2, 0, rgba, webgl_core::constants::UNSIGNED_BYTE, None, None);
    c.GenerateMipmap(t2d);
    assert_eq!(c.GetError(), webgl_core::constants::NO_ERROR);
}

#[test]
fn vector_uniform_lengths_follow_the_element_count() {
    let mut c = ctx();
    let prog = c.CreateProgram().unwrap();
    let outcome = LinkOutcome {
        linked: true,
        active_attribs: Vec::new(),
        active_uniforms: vec![webgl_core::objects::ActiveUniformInfo {
            name: String::from("tint"),
            size: None,
            type_: webgl_core::constants::FLOAT_VEC3,
        }],
    };
    c.LinkProgram(&prog, outcome);
    c.UseProgram(Some(&prog));
    let loc = c.GetUniformLocation(&prog, String::from("tint")).unwrap();
    c.Uniform3fv(Some(&loc), vec![0u32; 2]);
    assert_eq!(c.GetError(), webgl_core::constants::INVALID_VALUE);
    c.Uniform3fv(Some(&loc), vec![0u32; 6]);
    assert_eq!(c.GetError(), webgl_core::constants::INVALID_OPERATION);
    c.Uniform3fv(Some(&loc), vec![0u32; 3]);
    assert_eq!(c.GetError(), webgl_core::constants::NO_ERROR);
    c.Uniform3f(Some(&loc), 0, 0, 0);
    assert_eq!(c.GetError(), webgl_core::constants::NO_ERROR);
    c.Uniform2f(Some(&loc), 0, 0);
    assert_eq!(c.GetError(), webgl_core::constants::INVALID_OPERATION);
}

#[test]
fn foreign_uniform_locations_are_rejected_as_operations() {
    let mut c1 = ctx();
    let mut c2 = WebGLRenderingContext::new_inherited(2, (32, 32), GLLimits::minimal());
    let prog = c1.CreateProgram().unwrap();
    let outcome = LinkOutcome {
        linked: true,
        active_attribs: Vec::new(),
        active_uniforms: vec![webgl_core::objects::ActiveUniformInfo {
            name: String::from("shade"),
            size: None,
            type_: webgl_core::constants::FLOAT,
        }],
    };
    c1.LinkProgram(&prog, outcome);
    c1.UseProgram(Some(&prog));
    let loc = c1.GetUniformLocation(&prog, String::from("shade")).unwrap();
    let before = c2.outbox.len();
    c2.Uniform1f(Some(&loc), 0);
    assert_eq!(c2.GetError(), webgl_core::constants::INVALID_OPERATION);
    assert_eq!(c2.outbox.len(), before);
}

#[test]
fn constant_vertex_attributes_cache_the_zero_slot() {
    let mut c = ctx();
    c.VertexAttrib4f(0, 1f32.to_bits(), 2f32.to_bits(), 3f32.to_bits(), 4f32.to_bits());
    assert_eq!(
        c.state.current_vertex_attrib_0,
        (1f32.to_bits(), 2f32.to_bits(), 3f32.to_bits(), 4f32.to_bits())
    );
    c.VertexAttrib1fv(1, vec![]);
    assert_eq!(c.GetError(), webgl_core::constants::INVALID_VALUE);
    c.VertexAttrib1f(8, 0);
    assert_eq!(c.GetError(), webgl_core::constants::INVALID_VALUE);
    match c.GetVertexAttrib(0, webgl_core::constants::CURRENT_VERTEX_ATTRIB) {
        ParameterAnswer::Bits4(x, y, z, w) => {
            assert_eq!((x, y, z, w), (1f32.to_bits(), 2f32.to_bits(), 3f32.to_bits(),
                4f32.to_bits()));
        },
        other => panic!("unexpected answer {:?}", other),
    }
}

#[test]
fn copy_tex_image_records_a_framebuffer_sourced_level() {
    let mut c = ctx();
    let tex = c.CreateTexture().unwrap();
    let t2d = webgl_core::constants::TEXTURE_2D;
    c.BindTexture(t2d, Some(&tex));
    c.CopyTexImage2D(t2d, 0, webgl_core::constants::RGBA, 0, 0, 4, 4, 0);
    assert_eq!(c.GetError(), webgl_core::constants::NO_ERROR);
    assert_eq!(
        c.outbox.last().unwrap().clone(),
        WebGLCommand::CopyTexImage2D(t2d, 0, webgl_core::constants::RGBA, 0, 0, 4, 4)
    );
    // the recorded level accepts an in-range copy and rejects an
    // out-of-range one
    c.CopyTexSubImage2D(t2d, 0, 1, 1, 0, 0, 2, 2);
    assert_eq!(c.GetError(), webgl_core::constants::NO_ERROR);
    c.CopyTexSubImage2D(t2d, 0, 3, 3, 0, 0, 2, 2);
    assert_eq!(c.GetError(), webgl_core::constants::INVALID_VALUE);
}
