use webgl_core::command::WebGLCommand;
use webgl_core::context::WebGLRenderingContext;
use webgl_core::limits::GLLimits;

fn ctx() -> WebGLRenderingContext {
    WebGLRenderingContext::new_inherited(1, (64, 64), GLLimits::minimal())
}

#[test]
fn fresh_context_reports_no_error() {
    let mut c = ctx();
    assert_eq!(c.GetError(), webgl_core::constants::NO_ERROR);
    assert_eq!(c.outbox.len(), 0);
}

#[test]
fn unknown_capability_enum_is_rejected_without_state_change() {
    let mut c = ctx();
    let caps_before = c.state.capabilities;
    c.Enable(0xDEAD);
    assert_eq!(c.GetError(), webgl_core::constants::INVALID_ENUM);
    assert_eq!(c.state.capabilities, caps_before);
    assert_eq!(c.outbox.len(), 0);
}

#[test]
fn unknown_cull_face_enum_is_rejected_without_command() {
    let mut c = ctx();
    c.CullFace(0x1234);
    assert_eq!(c.GetError(), webgl_core::constants::INVALID_ENUM);
    assert_eq!(c.outbox.len(), 0);
}

#[test]
fn enable_and_is_enabled_round_trip() {
    let mut c = ctx();
    assert!(!c.IsEnabled(webgl_core::constants::BLEND));
    c.Enable(webgl_core::constants::BLEND);
    assert!(c.IsEnabled(webgl_core::constants::BLEND));
    c.Disable(webgl_core::constants::BLEND);
    assert!(!c.IsEnabled(webgl_core::constants::BLEND));
    assert_eq!(c.GetError(), webgl_core::constants::NO_ERROR);
}

#[test]
fn dither_is_enabled_by_default() {
    let mut c = ctx();
    assert!(c.IsEnabled(webgl_core::constants::DITHER));
}

#[test]
fn foreign_buffer_bind_is_rejected_without_mutation() {
    let mut c1 = ctx();
    let mut c2 = WebGLRenderingContext::new_inherited(2, (32, 32), GLLimits::minimal());
    let buf = c1.CreateBuffer().unwrap();
    let outbox_before = c2.outbox.len();
    c2.BindBuffer(webgl_core::constants::ARRAY_BUFFER, Some(&buf));
    assert_eq!(c2.GetError(), webgl_core::constants::INVALID_OPERATION);
    assert_eq!(c2.array_buffer(), None);
    assert_eq!(c2.outbox.len(), outbox_before);
}

#[test]
fn foreign_texture_delete_is_rejected_without_mutation() {
    let mut c1 = ctx();
    let mut c2 = WebGLRenderingContext::new_inherited(2, (32, 32), GLLimits::minimal());
    let tex = c1.CreateTexture().unwrap();
    let outbox_before = c2.outbox.len();
    c2.DeleteTexture(Some(&tex));
    assert_eq!(c2.GetError(), webgl_core::constants::INVALID_OPERATION);
    assert_eq!(c2.outbox.len(), outbox_before);
}

#[test]
fn deleting_a_bound_texture_unbinds_every_unit_and_restores_selection() {
    let mut c = ctx();
    let tex = c.CreateTexture().unwrap();
    let t0 = webgl_core::constants::TEXTURE0;
    let t2d = webgl_core::constants::TEXTURE_2D;
    c.ActiveTexture(t0);
    c.BindTexture(t2d, Some(&tex));
    c.ActiveTexture(t0 + 1);
    c.BindTexture(t2d, Some(&tex));
    assert_eq!(c.GetError(), webgl_core::constants::NO_ERROR);
    let before = c.outbox.len();
    c.DeleteTexture(Some(&tex));
    assert_eq!(c.GetError(), webgl_core::constants::NO_ERROR);
    // the selection is what it was before the deletion
    assert_eq!(c.state.tex_units.active_unit, 1);
    // no unit still references the texture
    for unit in &c.state.tex_units.units {
        assert_eq!(unit.tex_2d, None);
        assert_eq!(unit.tex_cube_map, None);
    }
    // unit 0 needed a switch, unit 1 was the selected one at that point
    let sent: Vec<WebGLCommand> = c.outbox[before..].to_vec();
    assert_eq!(
        sent,
        vec![
            WebGLCommand::ActiveTexture(t0),
            WebGLCommand::BindTexture(t2d, None),
            WebGLCommand::ActiveTexture(t0 + 1),
            WebGLCommand::BindTexture(t2d, None),
            WebGLCommand::DeleteTexture(tex.id),
        ]
    );
}

#[test]
fn deleting_the_bound_framebuffer_restores_the_default() {
    let mut c = ctx();
    let fb = c.CreateFramebuffer().unwrap();
    c.BindFramebuffer(webgl_core::constants::FRAMEBUFFER, Some(&fb));
    assert_eq!(c.state.bound_framebuffer, Some(fb.id));
    c.DeleteFramebuffer(Some(&fb));
    assert_eq!(c.GetError(), webgl_core::constants::NO_ERROR);
    assert_eq!(c.state.bound_framebuffer, None);
    let last = c.outbox.last().unwrap().clone();
    assert_eq!(last, WebGLCommand::DeleteFramebuffer(fb.id));
}

#[test]
fn deleting_a_bound_buffer_clears_the_array_slot() {
    let mut c = ctx();
    let buf = c.CreateBuffer().unwrap();
    c.BindBuffer(webgl_core::constants::ARRAY_BUFFER, Some(&buf));
    assert_eq!(c.array_buffer(), Some(buf.id));
    c.DeleteBuffer(Some(&buf));
    assert_eq!(c.GetError(), webgl_core::constants::NO_ERROR);
    assert_eq!(c.array_buffer(), None);
    assert!(c.state.buffers[(buf.id - 1) as usize].marked_for_deletion);
    assert!(c.state.buffers[(buf.id - 1) as usize].released);
    assert_eq!(c.outbox.last().unwrap().clone(), WebGLCommand::DeleteBuffer(buf.id));
}

#[test]
fn delete_of_nothing_is_a_no_op() {
    let mut c = ctx();
    let before = c.outbox.len();
    c.DeleteBuffer(None);
    c.DeleteTexture(None);
    c.DeleteFramebuffer(None);
    c.DeleteRenderbuffer(None);
    assert_eq!(c.GetError(), webgl_core::constants::NO_ERROR);
    assert_eq!(c.outbox.len(), before);
}

#[test]
fn pixel_upload_of_four_by_one_rgba_bytes_requires_sixteen_bytes() {
    let rgba = webgl_core::constants::RGBA;
    let ub = webgl_core::constants::UNSIGNED_BYTE;
    assert_eq!(webgl_core::uploads::expected_byte_length(4, 1, rgba, ub, 4), 16);

    // a fifteen-byte buffer is rejected with InvalidOperation
    let mut c = ctx();
    let tex = c.CreateTexture().unwrap();
    c.BindTexture(webgl_core::constants::TEXTURE_2D, Some(&tex));
    let before = c.outbox.len();
    c.TexImage2D(
        webgl_core::constants::TEXTURE_2D,
        0,
        rgba,
        4,
        1,
        0,
        rgba,
        ub,
        Some(1),
        Some(vec![0u8; 15]),
    );
    assert_eq!(c.GetError(), webgl_core::constants::INVALID_OPERATION);
    assert_eq!(c.outbox.len(), before);

    // a sixteen-byte buffer is accepted and encoded
    c.TexImage2D(
        webgl_core::constants::TEXTURE_2D,
        0,
        rgba,
        4,
        1,
        0,
        rgba,
        ub,
        Some(1),
        Some(vec![7u8; 16]),
    );
    assert_eq!(c.GetError(), webgl_core::constants::NO_ERROR);
    assert_eq!(c.outbox.len(), before + 1);
    match c.outbox.last().unwrap() {
        WebGLCommand::TexImage2D { width, height, format, data_type, data, .. } => {
            assert_eq!(*width, 4);
            assert_eq!(*height, 1);
            assert_eq!(*format, rgba);
            assert_eq!(*data_type, ub);
            assert_eq!(data.len(), 16);
        },
        other => panic!("unexpected command {:?}", other),
    }
}

#[test]
fn row_padding_counts_every_row_but_the_last() {
    let rgb = webgl_core::constants::RGB;
    let ub = webgl_core::constants::UNSIGNED_BYTE;
    // three bytes per pixel, width 3: rows of 9 bytes pad to 12 under
    // alignment 4, except the final row
    assert_eq!(webgl_core::uploads::expected_byte_length(3, 1, rgb, ub, 4), 9);
    assert_eq!(webgl_core::uploads::expected_byte_length(3, 2, rgb, ub, 4), 21);
    assert_eq!(webgl_core::uploads::expected_byte_length(3, 2, rgb, ub, 1), 18);
    // packed types count elements, not components
    let rgb565 = webgl_core::constants::UNSIGNED_SHORT_5_6_5;
    assert_eq!(webgl_core::uploads::expected_byte_length(2, 2, rgb, rgb565, 4), 8);
    // zero height requires nothing
    assert_eq!(webgl_core::uploads::expected_byte_length(4, 0, rgb, ub, 4), 0);
}

#[test]
fn upload_without_bound_texture_is_an_operation_failure() {
    let mut c = ctx();
    let rgba = webgl_core::constants::RGBA;
    let ub = webgl_core::constants::UNSIGNED_BYTE;
    c.TexImage2D(webgl_core::constants::TEXTURE_2D, 0, rgba, 1, 1, 0, rgba, ub, None, None);
    assert_eq!(c.GetError(), webgl_core::constants::INVALID_OPERATION);
}

#[test]
fn float_upload_without_capability_is_an_enum_failure() {
    let mut c = ctx();
    let rgba = webgl_core::constants::RGBA;
    c.TexImage2D(
        webgl_core::constants::TEXTURE_2D,
        0,
        rgba,
        1,
        1,
        0,
        rgba,
        webgl_core::constants::FLOAT,
        None,
        None,
    );
    assert_eq!(c.GetError(), webgl_core::constants::INVALID_ENUM);
}

#[test]
fn non_filterable_float_upload_falls_back_to_opaque_black() {
    let mut c = ctx();
    // float uploads allowed, linear filtering of them not
    c.state.extensions.oes_texture_float = true;
    let tex = c.CreateTexture().unwrap();
    c.BindTexture(webgl_core::constants::TEXTURE_2D, Some(&tex));
    let rgba = webgl_core::constants::RGBA;
    c.TexImage2D(
        webgl_core::constants::TEXTURE_2D,
        0,
        rgba,
        2,
        1,
        0,
        rgba,
        webgl_core::constants::FLOAT,
        Some(4),
        Some(vec![0u8; 32]),
    );
    assert_eq!(c.GetError(), webgl_core::constants::NO_ERROR);
    match c.outbox.last().unwrap() {
        WebGLCommand::TexImage2D { data_type, data, .. } => {
            assert_eq!(*data_type, webgl_core::constants::UNSIGNED_BYTE);
            assert_eq!(data.as_slice(), &[0, 0, 0, 255, 0, 0, 0, 255]);
        },
        other => panic!("unexpected command {:?}", other),
    }
}

#[test]
fn blend_constant_color_and_alpha_are_mutually_exclusive() {
    let mut c = ctx();
    let before = c.outbox.len();
    c.BlendFunc(
        webgl_core::constants::CONSTANT_COLOR,
        webgl_core::constants::ONE_MINUS_CONSTANT_ALPHA,
    );
    assert_eq!(c.GetError(), webgl_core::constants::INVALID_OPERATION);
    assert_eq!(c.outbox.len(), before);
    c.BlendFunc(webgl_core::constants::CONSTANT_COLOR, webgl_core::constants::CONSTANT_COLOR);
    assert_eq!(c.GetError(), webgl_core::constants::NO_ERROR);
    assert_eq!(c.outbox.len(), before + 1);
}

#[test]
fn min_max_blend_equations_need_their_capability_set() {
    let mut c = ctx();
    c.BlendEquation(webgl_core::constants::MIN_EXT);
    assert_eq!(c.GetError(), webgl_core::constants::INVALID_ENUM);
    c.state.extensions.ext_blend_minmax = true;
    c.BlendEquation(webgl_core::constants::MIN_EXT);
    assert_eq!(c.GetError(), webgl_core::constants::NO_ERROR);
}

#[test]
fn line_width_rejects_zero_negative_and_nan() {
    let mut c = ctx();
    c.LineWidth(0.0f32.to_bits());
    assert_eq!(c.GetError(), webgl_core::constants::INVALID_VALUE);
    c.LineWidth((-1.5f32).to_bits());
    assert_eq!(c.GetError(), webgl_core::constants::INVALID_VALUE);
    c.LineWidth(f32::NAN.to_bits());
    assert_eq!(c.GetError(), webgl_core::constants::INVALID_VALUE);
    c.LineWidth(2.0f32.to_bits());
    assert_eq!(c.GetError(), webgl_core::constants::NO_ERROR);
}

#[test]
fn depth_range_rejects_near_above_far() {
    let mut c = ctx();
    c.DepthRange(0.8f32.to_bits(), 0.2f32.to_bits());
    assert_eq!(c.GetError(), webgl_core::constants::INVALID_OPERATION);
    c.DepthRange(0.2f32.to_bits(), 0.8f32.to_bits());
    assert_eq!(c.GetError(), webgl_core::constants::NO_ERROR);
}

#[test]
fn pixel_store_alignment_must_be_a_small_power_of_two() {
    let mut c = ctx();
    c.PixelStorei(webgl_core::constants::UNPACK_ALIGNMENT, 3);
    assert_eq!(c.GetError(), webgl_core::constants::INVALID_VALUE);
    assert_eq!(c.state.unpack_alignment, 4);
    c.PixelStorei(webgl_core::constants::UNPACK_ALIGNMENT, 8);
    assert_eq!(c.GetError(), webgl_core::constants::NO_ERROR);
    assert_eq!(c.state.unpack_alignment, 8);
    c.PixelStorei(0xBEEF, 1);
    assert_eq!(c.GetError(), webgl_core::constants::INVALID_ENUM);
}

#[test]
fn scissor_rejects_negative_extents_and_caches_legal_ones() {
    let mut c = ctx();
    c.Scissor(0, 0, -1, 4);
    assert_eq!(c.GetError(), webgl_core::constants::INVALID_VALUE);
    c.Scissor(1, 2, 3, 4);
    assert_eq!(c.GetError(), webgl_core::constants::NO_ERROR);
    assert_eq!(c.state.current_scissor, (1, 2, 3, 4));
}

#[test]
fn sticky_register_keeps_the_first_error_until_polled() {
    let mut c = ctx();
    c.Enable(0xDEAD); // InvalidEnum
    c.BlendFunc(
        webgl_core::constants::CONSTANT_COLOR,
        webgl_core::constants::CONSTANT_ALPHA,
    ); // InvalidOperation, dropped: the register is full
    assert_eq!(c.GetError(), webgl_core::constants::INVALID_ENUM);
    assert_eq!(c.GetError(), webgl_core::constants::NO_ERROR);
    // a new failure after the poll is recorded again
    c.FrontFace(0x1234);
    assert_eq!(c.GetError(), webgl_core::constants::INVALID_ENUM);
}

#[test]
fn resize_resends_cached_state() {
    let mut c = ctx();
    c.ClearColor(
        0.25f32.to_bits(),
        0.5f32.to_bits(),
        0.75f32.to_bits(),
        1.0f32.to_bits(),
    );
    c.Scissor(1, 1, 10, 10);
    let before = c.outbox.len();
    c.recreate((128, 128));
    assert_eq!(c.state.size, (128, 128));
    let sent: Vec<WebGLCommand> = c.outbox[before..].to_vec();
    assert_eq!(
        sent,
        vec![
            WebGLCommand::Resize(128, 128),
            WebGLCommand::ClearColor(
                0.25f32.to_bits(),
                0.5f32.to_bits(),
                0.75f32.to_bits(),
                1.0f32.to_bits(),
            ),
            WebGLCommand::Scissor(1, 1, 10, 10),
        ]
    );
}

#[test]
fn a_lost_context_reports_context_lost_on_every_operation() {
    let mut c = ctx();
    c.mark_context_lost();
    let before = c.outbox.len();
    c.Flush();
    assert_eq!(c.outbox.len(), before);
    assert_eq!(c.GetError(), webgl_core::constants::CONTEXT_LOST_WEBGL);
    c.Enable(webgl_core::constants::BLEND);
    assert_eq!(c.GetError(), webgl_core::constants::CONTEXT_LOST_WEBGL);
}

#[test]
fn bind_framebuffer_rejects_a_wrong_target() {
    let mut c = ctx();
    let fb = c.CreateFramebuffer().unwrap();
    c.BindFramebuffer(webgl_core::constants::RENDERBUFFER, Some(&fb));
    assert_eq!(c.GetError(), webgl_core::constants::INVALID_ENUM);
    assert_eq!(c.state.bound_framebuffer, None);
}

#[test]
fn binding_a_deleted_framebuffer_is_rejected_and_keeps_the_binding() {
    let mut c = ctx();
    let fb1 = c.CreateFramebuffer().unwrap();
    let fb2 = c.CreateFramebuffer().unwrap();
    c.BindFramebuffer(webgl_core::constants::FRAMEBUFFER, Some(&fb1));
    c.DeleteFramebuffer(Some(&fb2));
    c.BindFramebuffer(webgl_core::constants::FRAMEBUFFER, Some(&fb2));
    assert_eq!(c.GetError(), webgl_core::constants::INVALID_OPERATION);
    assert_eq!(c.state.bound_framebuffer, Some(fb1.id));
}

#[test]
fn is_texture_tracks_binding_and_deletion() {
    let mut c = ctx();
    let tex = c.CreateTexture().unwrap();
    assert!(!c.IsTexture(Some(&tex)));
    c.BindTexture(webgl_core::constants::TEXTURE_2D, Some(&tex));
    assert!(c.IsTexture(Some(&tex)));
    c.DeleteTexture(Some(&tex));
    assert!(!c.IsTexture(Some(&tex)));
    assert!(!c.IsTexture(None));
}

#[test]
fn a_texture_keeps_its_first_target() {
    let mut c = ctx();
    let tex = c.CreateTexture().unwrap();
    c.BindTexture(webgl_core::constants::TEXTURE_2D, Some(&tex));
    assert_eq!(c.GetError(), webgl_core::constants::NO_ERROR);
    c.BindTexture(webgl_core::constants::TEXTURE_CUBE_MAP, Some(&tex));
    assert_eq!(c.GetError(), webgl_core::constants::INVALID_OPERATION);
}

#[test]
fn active_texture_rejects_units_beyond_the_limit() {
    let mut c = ctx();
    let t0 = webgl_core::constants::TEXTURE0;
    c.ActiveTexture(t0 + 8);
    assert_eq!(c.GetError(), webgl_core::constants::INVALID_ENUM);
    assert_eq!(c.state.tex_units.active_unit, 0);
    c.ActiveTexture(t0 + 7);
    assert_eq!(c.GetError(), webgl_core::constants::NO_ERROR);
    assert_eq!(c.state.tex_units.active_unit, 7);
}
