//! The texture upload pipeline: the exact byte-length rule for pixel
//! buffers, and the two-dimensional texture image upload.

use vstd::prelude::*;

use crate::command::{AlphaTreatment, SourcePixelFormat, WebGLCommand, YAxisTreatment};
use crate::constants;
use crate::context::{rejected, sent1, ContextState, WebGLRenderingContext};
use crate::error::WebGLError;
use crate::objects::{TexImageInfo, TextureState};
use crate::textures::TexImageTarget;

verus! {

/// Bytes one element of the data type occupies.
pub open spec fn spec_element_size(data_type: u32) -> nat {
    if data_type == constants::UNSIGNED_BYTE {
        1
    } else if data_type == constants::UNSIGNED_SHORT_4_4_4_4 {
        2
    } else if data_type == constants::UNSIGNED_SHORT_5_5_5_1 {
        2
    } else if data_type == constants::UNSIGNED_SHORT_5_6_5 {
        2
    } else if data_type == constants::HALF_FLOAT_OES {
        2
    } else {
        4
    }
}

/// How many color components one element of the data type packs.
pub open spec fn spec_components_per_element(data_type: u32) -> nat {
    if data_type == constants::UNSIGNED_SHORT_4_4_4_4 {
        4
    } else if data_type == constants::UNSIGNED_SHORT_5_5_5_1 {
        4
    } else if data_type == constants::UNSIGNED_SHORT_5_6_5 {
        3
    } else {
        1
    }
}

/// How many color components the pixel format has.
pub open spec fn spec_format_components(format: u32) -> nat {
    if format == constants::LUMINANCE_ALPHA {
        2
    } else if format == constants::RGB {
        3
    } else if format == constants::RGBA {
        4
    } else {
        1
    }
}

/// Whether the format is one of the closed WebGL 1.0 upload formats.
pub open spec fn spec_is_tex_format(format: u32) -> bool {
    ||| format == constants::ALPHA
    ||| format == constants::LUMINANCE
    ||| format == constants::LUMINANCE_ALPHA
    ||| format == constants::RGB
    ||| format == constants::RGBA
}

/// Bytes per pixel of the upload: element size times components divided
/// by the components one element packs.
pub open spec fn spec_cpp(format: u32, data_type: u32) -> nat {
    spec_element_size(data_type) * spec_format_components(format) / spec_components_per_element(
        data_type,
    )
}

/// The exact byte length a pixel upload requires: each row is padded up
/// to the unpacking alignment, except the final row.
pub open spec fn spec_expected_byte_length(
    width: nat,
    height: nat,
    format: u32,
    data_type: u32,
    align: nat,
) -> nat
    recommends
        align >= 1,
{
    if height == 0 {
        0
    } else {
        let row = (width * spec_cpp(format, data_type)) as int;
        let stride = ((row + align - 1) / (align as int)) * (align as int);
        (stride * (height - 1) + row) as nat
    }
}

/// Bytes one element of the data type occupies.
pub fn element_size(data_type: u32) -> (r: u32)
    ensures
        r == spec_element_size(data_type),
{
    match data_type {
        constants::UNSIGNED_BYTE => 1,
        constants::UNSIGNED_SHORT_4_4_4_4
        | constants::UNSIGNED_SHORT_5_5_5_1
        | constants::UNSIGNED_SHORT_5_6_5
        | constants::HALF_FLOAT_OES => 2,
        _ => 4,
    }
}

/// Computes the byte length a pixel upload requires.
pub fn expected_byte_length(
    width: u32,
    height: u32,
    format: u32,
    data_type: u32,
    align: u32,
) -> (r: u64)
    requires
        1 <= align <= 0x10000,
        width <= 0x10000,
        height <= 0x10000,
    ensures
        r == spec_expected_byte_length(
            width as nat,
            height as nat,
            format,
            data_type,
            align as nat,
        ),
{
    if height == 0 {
        return 0;
    }
    let wanted = element_size(data_type);
    let components: u32 = match format {
        constants::LUMINANCE_ALPHA => 2,
        constants::RGB => 3,
        constants::RGBA => 4,
        _ => 1,
    };
    let per_element: u32 = match data_type {
        constants::UNSIGNED_SHORT_4_4_4_4 | constants::UNSIGNED_SHORT_5_5_5_1 => 4,
        constants::UNSIGNED_SHORT_5_6_5 => 3,
        _ => 1,
    };
    proof {
        assert(wanted <= 4);
        assert(components <= 4);
        assert(per_element >= 1);
        assert((wanted as u64) * (components as u64) <= 16) by (nonlinear_arith)
            requires
                wanted <= 4,
                components <= 4,
        ;
    }
    let cpp: u64 = (wanted as u64) * (components as u64) / (per_element as u64);
    proof {
        assert(cpp <= 16);
        assert((width as u64) * cpp <= 0x10000u64 * 16) by (nonlinear_arith)
            requires
                width <= 0x10000,
                cpp <= 16,
        ;
    }
    let row: u64 = (width as u64) * cpp;
    let a = align as u64;
    let q: u64 = (row + a - 1) / a;
    proof {
        assert((q as int) * (a as int) <= row + a - 1) by (nonlinear_arith)
            requires
                a >= 1,
                q == (row + a - 1) as int / a as int,
        ;
    }
    let stride: u64 = q * a;
    proof {
        assert(stride * ((height - 1) as u64) <= 0x110000u64 * 0x10000) by (nonlinear_arith)
            requires
                stride <= 0x110000u64,
                height >= 1,
                height <= 0x10000,
        ;
    }
    stride * ((height - 1) as u64) + row
}

impl WebGLRenderingContext {
    /// Computes the byte length a pixel upload requires, and rejects a
    /// pixel source whose element width does not match the data type with
    /// `InvalidOperation`. `source_element_size` is the element width of
    /// the supplied typed buffer, or `None` when no buffer was supplied.
    pub fn validate_tex_image_2d_data(
        &mut self,
        width: u32,
        height: u32,
        format: u32,
        data_type: u32,
        unpacking_alignment: u32,
        source_element_size: Option<u32>,
    ) -> (r: Result<u64, ()>)
        requires
            old(self).valid(),
            1 <= unpacking_alignment <= 0x10000,
            width <= 0x10000,
            height <= 0x10000,
        ensures
            final(self).valid(),
            ({
                let wanted = spec_element_size(data_type);
                let received = match source_element_size {
                    Some(sz) => sz as nat,
                    None => wanted,
                };
                if received != wanted {
                    r is Err && rejected(*old(self), *final(self), WebGLError::InvalidOperation)
                } else {
                    r == Result::<u64, ()>::Ok(
                        spec_expected_byte_length(
                            width as nat,
                            height as nat,
                            format,
                            data_type,
                            unpacking_alignment as nat,
                        ) as u64,
                    ) && crate::context::unchanged(*old(self), *final(self))
                }
            }),
    {
        let wanted = element_size(data_type);
        let received: u32 = match source_element_size {
            Some(sz) => sz,
            None => wanted,
        };
        if received != wanted {
            self.webgl_error(WebGLError::InvalidOperation);
            return Err(());
        }
        Ok(expected_byte_length(width, height, format, data_type, unpacking_alignment))
    }
}

/// The opaque black placeholder pixels the filterable-texture fallback
/// uploads: four bytes per pixel, alpha full.
pub open spec fn spec_opaque_black(pixels: nat) -> Seq<u8>
    decreases pixels,
{
    if pixels == 0 {
        Seq::empty()
    } else {
        spec_opaque_black((pixels - 1) as nat) + seq![0u8, 0u8, 0u8, 255u8]
    }
}

/// Builds the opaque black placeholder buffer for the given pixel count.
fn opaque_black_pixels(pixels: u64) -> (r: Vec<u8>)
    ensures
        r@ == spec_opaque_black(pixels as nat),
{
    let mut data: Vec<u8> = Vec::new();
    let mut i: u64 = 0;
    proof {
        assert(data@ =~= spec_opaque_black(0));
    }
    while i < pixels
        invariant
            i <= pixels,
            data@ == spec_opaque_black(i as nat),
        decreases pixels - i,
    {
        data.push(0);
        data.push(0);
        data.push(0);
        data.push(255);
        i = i + 1;
        proof {
            assert(data@ =~= spec_opaque_black((i - 1) as nat) + seq![0u8, 0u8, 0u8, 255u8]);
        }
    }
    data
}

/// A zero-filled byte sequence.
pub open spec fn spec_zero_bytes(n: nat) -> Seq<u8> {
    Seq::new(n, |i: int| 0u8)
}

/// Builds a zero-filled buffer of the given length.
fn zero_bytes(n: u64) -> (r: Vec<u8>)
    ensures
        r@ == spec_zero_bytes(n as nat),
{
    let mut data: Vec<u8> = Vec::new();
    let mut i: u64 = 0;
    while i < n
        invariant
            i <= n,
            data@.len() == i,
            forall|j: int| 0 <= j < data@.len() ==> data@[j] == 0u8,
        decreases n - i,
    {
        data.push(0);
        i = i + 1;
    }
    proof {
        assert(data@ =~= spec_zero_bytes(n as nat));
    }
    data
}

/// The GL face constant an image target addresses.
pub open spec fn spec_tex_face(target: TexImageTarget) -> u32 {
    match target {
        TexImageTarget::Texture2D => constants::TEXTURE_2D,
        TexImageTarget::CubeMapPositiveX => constants::TEXTURE_CUBE_MAP_POSITIVE_X,
        TexImageTarget::CubeMapNegativeX => constants::TEXTURE_CUBE_MAP_NEGATIVE_X,
        TexImageTarget::CubeMapPositiveY => constants::TEXTURE_CUBE_MAP_POSITIVE_Y,
        TexImageTarget::CubeMapNegativeY => constants::TEXTURE_CUBE_MAP_NEGATIVE_Y,
        TexImageTarget::CubeMapPositiveZ => constants::TEXTURE_CUBE_MAP_POSITIVE_Z,
        TexImageTarget::CubeMapNegativeZ => constants::TEXTURE_CUBE_MAP_NEGATIVE_Z,
    }
}

/// The alpha conversion the unpacking settings call for.
pub open spec fn spec_alpha_treatment(premultiplied: bool, dest_premultiplied: bool) -> Option<
    AlphaTreatment,
> {
    if premultiplied && !dest_premultiplied {
        Some(AlphaTreatment::Unmultiply)
    } else if !premultiplied && dest_premultiplied {
        Some(AlphaTreatment::Premultiply)
    } else {
        None
    }
}

/// A texture filter setup that samples linearly, either between texels or
/// between mipmap levels.
pub open spec fn spec_uses_linear_filtering(t: TextureState) -> bool {
    ||| t.mag_filter == constants::LINEAR
    ||| t.min_filter == constants::LINEAR
    ||| t.min_filter == constants::LINEAR_MIPMAP_NEAREST
    ||| t.min_filter == constants::NEAREST_MIPMAP_LINEAR
    ||| t.min_filter == constants::LINEAR_MIPMAP_LINEAR
}

/// The upload command at the end of the outbox, with the given fields and
/// payload view.
pub open spec fn spec_upload_cmd(
    cmd: WebGLCommand,
    face: u32,
    level: u32,
    effective_internal_format: u32,
    width: u32,
    height: u32,
    format: u32,
    data_type: u32,
    effective_data_type: u32,
    unpacking_alignment: u32,
    alpha_treatment: Option<AlphaTreatment>,
    y_axis_treatment: YAxisTreatment,
    pixel_format: Option<SourcePixelFormat>,
    data_view: Seq<u8>,
) -> bool {
    &&& cmd matches WebGLCommand::TexImage2D {
        target: t2,
        level: l2,
        effective_internal_format: e2,
        width: w2,
        height: h2,
        format: f2,
        data_type: d2,
        effective_data_type: ed2,
        unpacking_alignment: u2,
        alpha_treatment: a2,
        y_axis_treatment: y2,
        pixel_format: p2,
        data: dd,
    } && t2 == face && l2 == level && e2 == effective_internal_format && w2 == width && h2
        == height && f2 == format && d2 == data_type && ed2 == effective_data_type && u2
        == unpacking_alignment && a2 == alpha_treatment && y2 == y_axis_treatment && p2
        == pixel_format && dd@ == data_view
}

/// What a successful upload does: records the image level on the bound
/// texture, leaves every other record untouched, and appends exactly one
/// upload command.
pub open spec fn spec_upload_applied(
    pre: WebGLRenderingContext,
    post: WebGLRenderingContext,
    tex_id: u32,
    info: TexImageInfo,
) -> bool {
    &&& crate::context::same_config(pre, post)
    &&& post.lost == pre.lost
    &&& post.last_error == pre.last_error
    &&& post.outbox@.len() == pre.outbox@.len() + 1
    &&& post.outbox@.subrange(0, pre.outbox@.len() as int) == pre.outbox@
    &&& post.state == (ContextState { textures: post.state.textures, ..pre.state })
    &&& post.state.textures@.len() == pre.state.textures@.len()
    &&& forall|k: int|
        0 <= k < pre.state.textures@.len() && k != tex_id - 1 ==> post.state.textures@[k]
            == pre.state.textures@[k]
    &&& post.state.textures@[tex_id - 1] == (TextureState {
        images: post.state.textures@[tex_id - 1].images,
        ..pre.state.textures@[tex_id - 1]
    })
    &&& crate::objects::spec_has_image(
        post.state.textures@[tex_id - 1].images@,
        info.face_target,
        info.level,
    )
    &&& crate::objects::spec_image_at(
        post.state.textures@[tex_id - 1].images@,
        info.face_target,
        info.level,
    ) == info
    &&& forall|f: u32, l: u32|
        !(f == info.face_target && l == info.level) ==> (#[trigger] crate::objects::spec_has_image(
            post.state.textures@[tex_id - 1].images@,
            f,
            l,
        ) == crate::objects::spec_has_image(pre.state.textures@[tex_id - 1].images@, f, l) && (
        crate::objects::spec_has_image(pre.state.textures@[tex_id - 1].images@, f, l)
            ==> crate::objects::spec_image_at(post.state.textures@[tex_id - 1].images@, f, l)
            == crate::objects::spec_image_at(pre.state.textures@[tex_id - 1].images@, f, l)))
}

/// The first validation failure of a two-dimensional texture upload, or
/// `None` when the upload is legal.
pub open spec fn spec_tex_image2d_error(
    pre: WebGLRenderingContext,
    target: u32,
    level: i32,
    internal_format: u32,
    width: i32,
    height: i32,
    border: i32,
    format: u32,
    data_type: u32,
    source_element_size: Option<u32>,
    data_len: Option<nat>,
) -> Option<WebGLError> {
    let s = pre.state;
    if !s.extensions.spec_is_tex_type_enabled(data_type) {
        Some(WebGLError::InvalidEnum)
    } else {
        match crate::textures::spec_tex_image_target(target) {
            None => Some(WebGLError::InvalidEnum),
            Some(t) => {
                let slot = s.tex_units.units@[s.tex_units.active_unit as int].spec_binding(
                    t.spec_binding_target(),
                );
                if slot is None {
                    Some(WebGLError::InvalidOperation)
                } else if !spec_is_tex_format(format) {
                    Some(WebGLError::InvalidEnum)
                } else if internal_format != format {
                    Some(WebGLError::InvalidOperation)
                } else if level < 0 || level > 31 || width < 0 || height < 0 || border != 0 {
                    Some(WebGLError::InvalidValue)
                } else if (if t.spec_is_cubic() {
                    width as u32 > pre.limits.max_cube_map_tex_size || height as u32
                        > pre.limits.max_cube_map_tex_size || width != height
                } else {
                    width as u32 > pre.limits.max_tex_size || height as u32
                        > pre.limits.max_tex_size
                }) {
                    Some(WebGLError::InvalidValue)
                } else if (match source_element_size {
                    Some(sz) => sz as nat != spec_element_size(data_type),
                    None => false,
                }) {
                    Some(WebGLError::InvalidOperation)
                } else {
                    let expected = spec_expected_byte_length(
                        width as nat,
                        height as nat,
                        format,
                        data_type,
                        s.unpack_alignment as nat,
                    );
                    match data_len {
                        Some(n) => {
                            if n < expected {
                                Some(WebGLError::InvalidOperation)
                            } else {
                                None
                            }
                        },
                        None => None,
                    }
                }
            },
        }
    }
}

impl WebGLRenderingContext {
    /// Records one uploaded image level and encodes the upload command.
    /// The alpha and row-order conversions follow the unpacking settings;
    /// the effective format and type substitutions follow the enabled
    /// capability sets.
    #[verifier::rlimit(100)]
    fn tex_image_2d(
        &mut self,
        tex_id: u32,
        face: u32,
        data_type: u32,
        format: u32,
        level: u32,
        unpacking_alignment: u32,
        width: u32,
        height: u32,
        premultiplied: bool,
        pixel_format: Option<SourcePixelFormat>,
        data: Vec<u8>,
    )
        requires
            old(self).valid(),
            0 < tex_id <= old(self).state.textures@.len(),
        ensures
            final(self).valid(),
            spec_upload_applied(
                *old(self),
                *final(self),
                tex_id,
                TexImageInfo {
                    face_target: face,
                    level,
                    width,
                    height,
                    internal_format: format,
                    data_type: Some(data_type),
                },
            ),
            spec_upload_cmd(
                final(self).outbox@.last(),
                face,
                level,
                old(self).state.extensions.spec_effective_internal_format(format, data_type),
                width,
                height,
                format,
                data_type,
                old(self).state.extensions.spec_effective_type(data_type),
                unpacking_alignment,
                spec_alpha_treatment(premultiplied, old(self).state.unpack_premultiply_alpha),
                if old(self).state.unpack_flip_y {
                    YAxisTreatment::Flipped
                } else {
                    YAxisTreatment::AsIs
                },
                pixel_format,
                data@,
            ),
    {
        let info = TexImageInfo {
            face_target: face,
            level,
            width,
            height,
            internal_format: format,
            data_type: Some(data_type),
        };
        let idx = (tex_id - 1) as usize;
        crate::objects::set_image(&mut self.state.textures[idx].images, info);
        let alpha_treatment: Option<AlphaTreatment> = if premultiplied
            && !self.state.unpack_premultiply_alpha {
            Some(AlphaTreatment::Unmultiply)
        } else if !premultiplied && self.state.unpack_premultiply_alpha {
            Some(AlphaTreatment::Premultiply)
        } else {
            None
        };
        let y_axis_treatment: YAxisTreatment = if self.state.unpack_flip_y {
            YAxisTreatment::Flipped
        } else {
            YAxisTreatment::AsIs
        };
        let effective_internal_format = self.state.extensions.get_effective_tex_internal_format(
            format,
            data_type,
        );
        let effective_data_type = self.state.extensions.effective_type(data_type);
        let ghost pre_outbox = self.outbox@;
        self.send_command(
            WebGLCommand::TexImage2D {
                target: face,
                level,
                effective_internal_format,
                width,
                height,
                format,
                data_type,
                effective_data_type,
                unpacking_alignment,
                alpha_treatment,
                y_axis_treatment,
                pixel_format,
                data,
            },
        );
        proof {
            assert(self.outbox@.subrange(0, pre_outbox.len() as int) =~= pre_outbox);
        }
    }

    /// Uploads one texture image level from a pixel buffer, or a
    /// zero-filled buffer when none is supplied. The buffer must hold at
    /// least the bytes the width, height, format, type and unpacking
    /// alignment require, or the upload is rejected with
    /// `InvalidOperation`. When the bound texture samples linearly but
    /// the enabled capability sets do not make the data type filterable,
    /// an opaque black placeholder is uploaded in its place; this
    /// compatibility fallback is not an error.
    #[verifier::rlimit(100)]
    pub fn TexImage2D(
        &mut self,
        target: u32,
        level: i32,
        internal_format: u32,
        width: i32,
        height: i32,
        border: i32,
        format: u32,
        data_type: u32,
        source_element_size: Option<u32>,
        pixels: Option<Vec<u8>>,
    )
        requires
            old(self).valid(),
        ensures
            final(self).valid(),
            if old(self).lost {
                rejected(*old(self), *final(self), WebGLError::ContextLost)
            } else {
                let data_len = match pixels {
                    Some(p) => Some(p@.len()),
                    None => None::<nat>,
                };
                match spec_tex_image2d_error(
                    *old(self),
                    target,
                    level,
                    internal_format,
                    width,
                    height,
                    border,
                    format,
                    data_type,
                    source_element_size,
                    data_len,
                ) {
                    Some(e) => rejected(*old(self), *final(self), e),
                    None => spec_tex_image2d_success(
                        *old(self),
                        *final(self),
                        target,
                        level,
                        width,
                        height,
                        format,
                        data_type,
                        match pixels {
                            Some(p) => Some(p@),
                            None => None::<Seq<u8>>,
                        },
                    ),
                }
            },
    {
        if self.check_lost() {
            return ;
        }
        if !self.state.extensions.is_tex_type_enabled(data_type) {
            return self.webgl_error(WebGLError::InvalidEnum);
        }
        let t = match TexImageTarget::from_gl_constant(target) {
            Some(t) => t,
            None => return self.webgl_error(WebGLError::InvalidEnum),
        };
        let slot = match self.state.tex_units.active_texture_slot(t.binding_target()) {
            Ok(slot) => slot,
            Err(_) => return self.webgl_error(WebGLError::InvalidEnum),
        };
        let tex_id = match slot {
            Some(id) => id,
            None => return self.webgl_error(WebGLError::InvalidOperation),
        };
        let format_ok = match format {
            constants::ALPHA | constants::LUMINANCE | constants::LUMINANCE_ALPHA | constants::RGB
                | constants::RGBA => true,
            _ => false,
        };
        if !format_ok {
            return self.webgl_error(WebGLError::InvalidEnum);
        }
        if internal_format != format {
            return self.webgl_error(WebGLError::InvalidOperation);
        }
        if level < 0 || level > 31 || width < 0 || height < 0 || border != 0 {
            return self.webgl_error(WebGLError::InvalidValue);
        }
        let cubic = t.is_cubic();
        if cubic {
            if width as u32 > self.limits.max_cube_map_tex_size || height as u32
                > self.limits.max_cube_map_tex_size || width != height {
                return self.webgl_error(WebGLError::InvalidValue);
            }
        } else {
            if width as u32 > self.limits.max_tex_size || height as u32
                > self.limits.max_tex_size {
                return self.webgl_error(WebGLError::InvalidValue);
            }
        }
        match source_element_size {
            Some(sz) => {
                if sz != element_size(data_type) {
                    return self.webgl_error(WebGLError::InvalidOperation);
                }
            },
            None => (),
        }
        let expected = expected_byte_length(
            width as u32,
            height as u32,
            format,
            data_type,
            self.state.unpack_alignment,
        );
        let data: Vec<u8> = match pixels {
            Some(p) => {
                if (p.len() as u64) < expected {
                    return self.webgl_error(WebGLError::InvalidOperation);
                }
                p
            },
            None => zero_bytes(expected),
        };
        let filterable = self.state.extensions.is_filterable(data_type);
        let tex_idx = (tex_id - 1) as usize;
        let mag = self.state.textures[tex_idx].mag_filter;
        let min = self.state.textures[tex_idx].min_filter;
        let linear = mag == constants::LINEAR || min == constants::LINEAR || min
            == constants::LINEAR_MIPMAP_NEAREST || min == constants::NEAREST_MIPMAP_LINEAR || min
            == constants::LINEAR_MIPMAP_LINEAR;
        if !filterable && linear {
            proof {
                assert((width as u64) * (height as u64) <= 0x10000u64 * 0x10000)
                    by (nonlinear_arith)
                    requires
                        0 <= width as u64 <= 0x10000,
                        0 <= height as u64 <= 0x10000,
                ;
            }
            let placeholder = opaque_black_pixels((width as u64) * (height as u64));
            let ghost placeholder_view = placeholder@;
            let face = t.as_gl_constant();
            self.tex_image_2d(
                tex_id,
                face,
                constants::UNSIGNED_BYTE,
                format,
                level as u32,
                1,
                width as u32,
                height as u32,
                true,
                Some(SourcePixelFormat::Rgba8),
                placeholder,
            );
            proof {
                let pre = *old(self);
                let tspec = crate::textures::spec_tex_image_target(target)->0;
                assert(tspec == t);
                assert(face == spec_tex_face(t));
                let tid = pre.state.tex_units.units@[pre.state.tex_units.active_unit as int]
                    .spec_binding(tspec.spec_binding_target())->0;
                assert(tid == tex_id);
                let info = TexImageInfo {
                    face_target: face,
                    level: level as u32,
                    width: width as u32,
                    height: height as u32,
                    internal_format: format,
                    data_type: Some(constants::UNSIGNED_BYTE),
                };
                assert forall|f: u32, l: u32|
                    !(f == info.face_target && l == info.level) implies (
                    #[trigger] crate::objects::spec_has_image(
                        self.state.textures@[tex_id - 1].images@,
                        f,
                        l,
                    ) == crate::objects::spec_has_image(
                        pre.state.textures@[tex_id - 1].images@,
                        f,
                        l,
                    ) && (crate::objects::spec_has_image(
                        pre.state.textures@[tex_id - 1].images@,
                        f,
                        l,
                    ) ==> crate::objects::spec_image_at(
                        self.state.textures@[tex_id - 1].images@,
                        f,
                        l,
                    ) == crate::objects::spec_image_at(
                        pre.state.textures@[tex_id - 1].images@,
                        f,
                        l,
                    ))) by {
                    assert(crate::objects::spec_has_image(
                        self.state.textures@[tex_id - 1].images@,
                        f,
                        l,
                    ) == crate::objects::spec_has_image(
                        pre.state.textures@[tex_id - 1].images@,
                        f,
                        l,
                    ));
                }
                assert(spec_upload_applied(pre, *self, tex_id, info));
                assert(!pre.state.extensions.spec_is_filterable(data_type)
                    && spec_uses_linear_filtering(pre.state.textures@[tid - 1]));
                assert(placeholder_view == spec_opaque_black((width * height) as nat));
            }
            return ;
        }
        let face = t.as_gl_constant();
        let unpacking_alignment = self.state.unpack_alignment;
        self.tex_image_2d(
            tex_id,
            face,
            data_type,
            format,
            level as u32,
            unpacking_alignment,
            width as u32,
            height as u32,
            false,
            None,
            data,
        );
        proof {
            let pre = *old(self);
            let tspec = crate::textures::spec_tex_image_target(target)->0;
            assert(tspec == t);
            assert(face == spec_tex_face(t));
            let tid = pre.state.tex_units.units@[pre.state.tex_units.active_unit as int]
                .spec_binding(tspec.spec_binding_target())->0;
            assert(tid == tex_id);
            let info = TexImageInfo {
                face_target: face,
                level: level as u32,
                width: width as u32,
                height: height as u32,
                internal_format: format,
                data_type: Some(data_type),
            };
            assert forall|f: u32, l: u32|
                !(f == info.face_target && l == info.level) implies (
                #[trigger] crate::objects::spec_has_image(
                    self.state.textures@[tex_id - 1].images@,
                    f,
                    l,
                ) == crate::objects::spec_has_image(pre.state.textures@[tex_id - 1].images@, f, l)
                    && (crate::objects::spec_has_image(pre.state.textures@[tex_id - 1].images@, f, l)
                    ==> crate::objects::spec_image_at(self.state.textures@[tex_id - 1].images@, f, l)
                    == crate::objects::spec_image_at(pre.state.textures@[tex_id - 1].images@, f, l))) by {
                assert(crate::objects::spec_has_image(self.state.textures@[tex_id - 1].images@, f, l)
                    == crate::objects::spec_has_image(pre.state.textures@[tex_id - 1].images@, f, l));
            }
            assert(spec_upload_applied(pre, *self, tex_id, info));
            assert(!(!pre.state.extensions.spec_is_filterable(data_type)
                && spec_uses_linear_filtering(pre.state.textures@[tid - 1])));
        }
    }
}

/// The recorded level of a legal upload, without the command detail.
pub open spec fn spec_tex_image2d_success(
    pre: WebGLRenderingContext,
    post: WebGLRenderingContext,
    target: u32,
    level: i32,
    width: i32,
    height: i32,
    format: u32,
    data_type: u32,
    pixels_view: Option<Seq<u8>>,
) -> bool {
    let s = pre.state;
    let t = crate::textures::spec_tex_image_target(target)->0;
    let tex_id = s.tex_units.units@[s.tex_units.active_unit as int].spec_binding(
        t.spec_binding_target(),
    )->0;
    let falls_back = !s.extensions.spec_is_filterable(data_type) && spec_uses_linear_filtering(
        s.textures@[tex_id - 1],
    );
    let eff_type = if falls_back {
        constants::UNSIGNED_BYTE
    } else {
        data_type
    };
    &&& spec_upload_applied(
        pre,
        post,
        tex_id,
        TexImageInfo {
            face_target: spec_tex_face(t),
            level: level as u32,
            width: width as u32,
            height: height as u32,
            internal_format: format,
            data_type: Some(eff_type),
        },
    )
    &&& (if falls_back {
        spec_upload_cmd(
            post.outbox@.last(),
            spec_tex_face(t),
            level as u32,
            s.extensions.spec_effective_internal_format(format, constants::UNSIGNED_BYTE),
            width as u32,
            height as u32,
            format,
            constants::UNSIGNED_BYTE,
            s.extensions.spec_effective_type(constants::UNSIGNED_BYTE),
            1,
            spec_alpha_treatment(true, s.unpack_premultiply_alpha),
            if s.unpack_flip_y {
                YAxisTreatment::Flipped
            } else {
                YAxisTreatment::AsIs
            },
            Some(SourcePixelFormat::Rgba8),
            spec_opaque_black((width * height) as nat),
        )
    } else {
        spec_upload_cmd(
            post.outbox@.last(),
            spec_tex_face(t),
            level as u32,
            s.extensions.spec_effective_internal_format(format, data_type),
            width as u32,
            height as u32,
            format,
            data_type,
            s.extensions.spec_effective_type(data_type),
            s.unpack_alignment,
            spec_alpha_treatment(false, s.unpack_premultiply_alpha),
            if s.unpack_flip_y {
                YAxisTreatment::Flipped
            } else {
                YAxisTreatment::AsIs
            },
            None,
            match pixels_view {
                Some(v) => v,
                None => spec_zero_bytes(
                    spec_expected_byte_length(
                        width as nat,
                        height as nat,
                        format,
                        data_type,
                        s.unpack_alignment as nat,
                    ),
                ),
            },
        )
    })
}



/// The sub-image upload command at the end of the outbox, with the given
/// fields and payload view.
pub open spec fn spec_sub_upload_cmd(
    cmd: WebGLCommand,
    face: u32,
    level: u32,
    xoffset: i32,
    yoffset: i32,
    width: u32,
    height: u32,
    format: u32,
    data_type: u32,
    effective_data_type: u32,
    unpacking_alignment: u32,
    alpha_treatment: Option<AlphaTreatment>,
    y_axis_treatment: YAxisTreatment,
    data_view: Seq<u8>,
) -> bool {
    &&& cmd matches WebGLCommand::TexSubImage2D {
        target: t2,
        level: l2,
        xoffset: x2,
        yoffset: y2,
        width: w2,
        height: h2,
        format: f2,
        data_type: d2,
        effective_data_type: ed2,
        unpacking_alignment: u2,
        alpha_treatment: a2,
        y_axis_treatment: ya2,
        pixel_format: p2,
        data: dd,
    } && t2 == face && l2 == level && x2 == xoffset && y2 == yoffset && w2 == width && h2
        == height && f2 == format && d2 == data_type && ed2 == effective_data_type && u2
        == unpacking_alignment && a2 == alpha_treatment && ya2 == y_axis_treatment && p2 is None
        && dd@ == data_view
}

/// The first validation failure of a two-dimensional sub-image upload,
/// or `None` when the upload is legal: beyond the base upload checks,
/// the offsets must stay inside the recorded image level and the format
/// and type must match the recorded ones.
pub open spec fn spec_tex_sub_image2d_error(
    pre: WebGLRenderingContext,
    target: u32,
    level: i32,
    xoffset: i32,
    yoffset: i32,
    width: i32,
    height: i32,
    format: u32,
    data_type: u32,
    source_element_size: Option<u32>,
    data_len: Option<nat>,
) -> Option<WebGLError> {
    let s = pre.state;
    if !s.extensions.spec_is_tex_type_enabled(data_type) {
        Some(WebGLError::InvalidEnum)
    } else {
        match crate::textures::spec_tex_image_target(target) {
            None => Some(WebGLError::InvalidEnum),
            Some(t) => {
                let slot = s.tex_units.units@[s.tex_units.active_unit as int].spec_binding(
                    t.spec_binding_target(),
                );
                if slot is None {
                    Some(WebGLError::InvalidOperation)
                } else if !spec_is_tex_format(format) {
                    Some(WebGLError::InvalidEnum)
                } else if level < 0 || level > 31 || width < 0 || height < 0 {
                    Some(WebGLError::InvalidValue)
                } else if (if t.spec_is_cubic() {
                    width as u32 > pre.limits.max_cube_map_tex_size || height as u32
                        > pre.limits.max_cube_map_tex_size
                } else {
                    width as u32 > pre.limits.max_tex_size || height as u32
                        > pre.limits.max_tex_size
                }) {
                    Some(WebGLError::InvalidValue)
                } else if (match source_element_size {
                    Some(sz) => sz as nat != spec_element_size(data_type),
                    None => false,
                }) {
                    Some(WebGLError::InvalidOperation)
                } else {
                    let expected = spec_expected_byte_length(
                        width as nat,
                        height as nat,
                        format,
                        data_type,
                        s.unpack_alignment as nat,
                    );
                    match data_len {
                        None => Some(WebGLError::InvalidValue),
                        Some(n) => {
                            if n < expected {
                                Some(WebGLError::InvalidOperation)
                            } else {
                                let tex_id = slot->0;
                                let images = s.textures@[tex_id - 1].images@;
                                if !crate::objects::spec_has_image(
                                    images,
                                    spec_tex_face(t),
                                    level as u32,
                                ) {
                                    Some(WebGLError::InvalidOperation)
                                } else {
                                    let info = crate::objects::spec_image_at(
                                        images,
                                        spec_tex_face(t),
                                        level as u32,
                                    );
                                    if xoffset < 0 || yoffset < 0 || xoffset + width > info.width
                                        || yoffset + height > info.height {
                                        Some(WebGLError::InvalidValue)
                                    } else if format != info.internal_format || Some(data_type)
                                        != info.data_type {
                                        Some(WebGLError::InvalidOperation)
                                    } else {
                                        None
                                    }
                                }
                            }
                        },
                    }
                }
            },
        }
    }
}

impl WebGLRenderingContext {
    /// Overwrites a rectangle of one recorded texture image level. The
    /// byte-length rule is the base upload's; the rectangle must stay
    /// inside the recorded level, whose format and type the data must
    /// match. The tracked state does not change: only the sub-image
    /// command is encoded.
    #[verifier::rlimit(100)]
    pub fn TexSubImage2D(
        &mut self,
        target: u32,
        level: i32,
        xoffset: i32,
        yoffset: i32,
        width: i32,
        height: i32,
        format: u32,
        data_type: u32,
        source_element_size: Option<u32>,
        pixels: Option<Vec<u8>>,
    )
        requires
            old(self).valid(),
        ensures
            final(self).valid(),
            if old(self).lost {
                rejected(*old(self), *final(self), WebGLError::ContextLost)
            } else {
                let data_len = match pixels {
                    Some(p) => Some(p@.len()),
                    None => None::<nat>,
                };
                match spec_tex_sub_image2d_error(
                    *old(self),
                    target,
                    level,
                    xoffset,
                    yoffset,
                    width,
                    height,
                    format,
                    data_type,
                    source_element_size,
                    data_len,
                ) {
                    Some(e) => rejected(*old(self), *final(self), e),
                    None => ({
                        let s = old(self).state;
                        let t = crate::textures::spec_tex_image_target(target)->0;
                        &&& crate::context::same_config(*old(self), *final(self))
                        &&& final(self).lost == old(self).lost
                        &&& final(self).last_error == old(self).last_error
                        &&& final(self).state == old(self).state
                        &&& final(self).outbox@.len() == old(self).outbox@.len() + 1
                        &&& final(self).outbox@.subrange(0, old(self).outbox@.len() as int) == old(
                            self,
                        ).outbox@
                        &&& spec_sub_upload_cmd(
                            final(self).outbox@.last(),
                            spec_tex_face(t),
                            level as u32,
                            xoffset,
                            yoffset,
                            width as u32,
                            height as u32,
                            format,
                            data_type,
                            s.extensions.spec_effective_type(data_type),
                            s.unpack_alignment,
                            spec_alpha_treatment(false, s.unpack_premultiply_alpha),
                            if s.unpack_flip_y {
                                YAxisTreatment::Flipped
                            } else {
                                YAxisTreatment::AsIs
                            },
                            match pixels {
                                Some(p) => p@,
                                None => Seq::empty(),
                            },
                        )
                    }),
                }
            },
    {
        if self.check_lost() {
            return ;
        }
        if !self.state.extensions.is_tex_type_enabled(data_type) {
            return self.webgl_error(WebGLError::InvalidEnum);
        }
        let t = match TexImageTarget::from_gl_constant(target) {
            Some(t) => t,
            None => return self.webgl_error(WebGLError::InvalidEnum),
        };
        let slot = match self.state.tex_units.active_texture_slot(t.binding_target()) {
            Ok(slot) => slot,
            Err(_) => return self.webgl_error(WebGLError::InvalidEnum),
        };
        let tex_id = match slot {
            Some(id) => id,
            None => return self.webgl_error(WebGLError::InvalidOperation),
        };
        let format_ok = match format {
            constants::ALPHA | constants::LUMINANCE | constants::LUMINANCE_ALPHA | constants::RGB
                | constants::RGBA => true,
            _ => false,
        };
        if !format_ok {
            return self.webgl_error(WebGLError::InvalidEnum);
        }
        if level < 0 || level > 31 || width < 0 || height < 0 {
            return self.webgl_error(WebGLError::InvalidValue);
        }
        if t.is_cubic() {
            if width as u32 > self.limits.max_cube_map_tex_size || height as u32
                > self.limits.max_cube_map_tex_size {
                return self.webgl_error(WebGLError::InvalidValue);
            }
        } else {
            if width as u32 > self.limits.max_tex_size || height as u32
                > self.limits.max_tex_size {
                return self.webgl_error(WebGLError::InvalidValue);
            }
        }
        match source_element_size {
            Some(sz) => {
                if sz != element_size(data_type) {
                    return self.webgl_error(WebGLError::InvalidOperation);
                }
            },
            None => (),
        }
        let expected = expected_byte_length(
            width as u32,
            height as u32,
            format,
            data_type,
            self.state.unpack_alignment,
        );
        let data: Vec<u8> = match pixels {
            Some(p) => p,
            None => return self.webgl_error(WebGLError::InvalidValue),
        };
        if (data.len() as u64) < expected {
            return self.webgl_error(WebGLError::InvalidOperation);
        }
        let face = t.as_gl_constant();
        let tex_idx = (tex_id - 1) as usize;
        let info = match crate::objects::find_image(
            &self.state.textures[tex_idx].images,
            face,
            level as u32,
        ) {
            Some(info) => info,
            None => return self.webgl_error(WebGLError::InvalidOperation),
        };
        if xoffset < 0 || yoffset < 0 || (xoffset as i64) + (width as i64) > info.width as i64
            || (yoffset as i64) + (height as i64) > info.height as i64 {
            return self.webgl_error(WebGLError::InvalidValue);
        }
        let type_matches = match info.data_type {
            Some(dt) => dt == data_type,
            None => false,
        };
        if format != info.internal_format || !type_matches {
            return self.webgl_error(WebGLError::InvalidOperation);
        }
        let alpha_treatment: Option<AlphaTreatment> = if self.state.unpack_premultiply_alpha {
            Some(AlphaTreatment::Premultiply)
        } else {
            None
        };
        let y_axis_treatment: YAxisTreatment = if self.state.unpack_flip_y {
            YAxisTreatment::Flipped
        } else {
            YAxisTreatment::AsIs
        };
        let effective_data_type = self.state.extensions.effective_type(data_type);
        let unpacking_alignment = self.state.unpack_alignment;
        let ghost pre_outbox = self.outbox@;
        self.send_command(
            WebGLCommand::TexSubImage2D {
                target: face,
                level: level as u32,
                xoffset,
                yoffset,
                width: width as u32,
                height: height as u32,
                format,
                data_type,
                effective_data_type,
                unpacking_alignment,
                alpha_treatment,
                y_axis_treatment,
                pixel_format: None,
                data,
            },
        );
        proof {
            assert(self.outbox@.subrange(0, pre_outbox.len() as int) =~= pre_outbox);
        }
    }

    /// Validates a compressed texture upload. No compressed-format
    /// capability set is supported, so every format is rejected with
    /// `InvalidEnum` once the target, binding, level and sizes have
    /// passed their own checks.
    pub fn CompressedTexImage2D(
        &mut self,
        target: u32,
        level: i32,
        internal_format: u32,
        width: i32,
        height: i32,
        border: i32,
        data: Vec<u8>,
    )
        requires
            old(self).valid(),
        ensures
            final(self).valid(),
            if old(self).lost {
                rejected(*old(self), *final(self), WebGLError::ContextLost)
            } else {
                rejected(
                    *old(self),
                    *final(self),
                    spec_compressed_upload_error(*old(self), target, level, width, height, border),
                )
            },
    {
        if self.check_lost() {
            return ;
        }
        let t = match TexImageTarget::from_gl_constant(target) {
            Some(t) => t,
            None => return self.webgl_error(WebGLError::InvalidEnum),
        };
        let slot = match self.state.tex_units.active_texture_slot(t.binding_target()) {
            Ok(slot) => slot,
            Err(_) => return self.webgl_error(WebGLError::InvalidEnum),
        };
        if slot.is_none() {
            return self.webgl_error(WebGLError::InvalidOperation);
        }
        if level < 0 || level > 31 || width < 0 || height < 0 || border != 0 {
            return self.webgl_error(WebGLError::InvalidValue);
        }
        if t.is_cubic() {
            if width as u32 > self.limits.max_cube_map_tex_size || height as u32
                > self.limits.max_cube_map_tex_size || width != height {
                return self.webgl_error(WebGLError::InvalidValue);
            }
        } else {
            if width as u32 > self.limits.max_tex_size || height as u32
                > self.limits.max_tex_size {
                return self.webgl_error(WebGLError::InvalidValue);
            }
        }
        self.webgl_error(WebGLError::InvalidEnum);
    }

    /// Validates a compressed sub-image upload; rejected like the full
    /// compressed upload, with no border check.
    pub fn CompressedTexSubImage2D(
        &mut self,
        target: u32,
        level: i32,
        xoffset: i32,
        yoffset: i32,
        width: i32,
        height: i32,
        format: u32,
        data: Vec<u8>,
    )
        requires
            old(self).valid(),
        ensures
            final(self).valid(),
            if old(self).lost {
                rejected(*old(self), *final(self), WebGLError::ContextLost)
            } else {
                rejected(
                    *old(self),
                    *final(self),
                    spec_compressed_upload_error(*old(self), target, level, width, height, 0),
                )
            },
    {
        if self.check_lost() {
            return ;
        }
        let t = match TexImageTarget::from_gl_constant(target) {
            Some(t) => t,
            None => return self.webgl_error(WebGLError::InvalidEnum),
        };
        let slot = match self.state.tex_units.active_texture_slot(t.binding_target()) {
            Ok(slot) => slot,
            Err(_) => return self.webgl_error(WebGLError::InvalidEnum),
        };
        if slot.is_none() {
            return self.webgl_error(WebGLError::InvalidOperation);
        }
        if level < 0 || level > 31 || width < 0 || height < 0 {
            return self.webgl_error(WebGLError::InvalidValue);
        }
        if t.is_cubic() {
            if width as u32 > self.limits.max_cube_map_tex_size || height as u32
                > self.limits.max_cube_map_tex_size || width != height {
                return self.webgl_error(WebGLError::InvalidValue);
            }
        } else {
            if width as u32 > self.limits.max_tex_size || height as u32
                > self.limits.max_tex_size {
                return self.webgl_error(WebGLError::InvalidValue);
            }
        }
        self.webgl_error(WebGLError::InvalidEnum);
    }
}

/// The error a compressed upload records: its own target, binding,
/// level, size and border checks come first; a legal shape still fails
/// with `InvalidEnum` because no compressed format is supported.
pub open spec fn spec_compressed_upload_error(
    pre: WebGLRenderingContext,
    target: u32,
    level: i32,
    width: i32,
    height: i32,
    border: i32,
) -> WebGLError {
    let s = pre.state;
    match crate::textures::spec_tex_image_target(target) {
        None => WebGLError::InvalidEnum,
        Some(t) => {
            let slot = s.tex_units.units@[s.tex_units.active_unit as int].spec_binding(
                t.spec_binding_target(),
            );
            if slot is None {
                WebGLError::InvalidOperation
            } else if level < 0 || level > 31 || width < 0 || height < 0 || border != 0 {
                WebGLError::InvalidValue
            } else if (if t.spec_is_cubic() {
                width as u32 > pre.limits.max_cube_map_tex_size || height as u32
                    > pre.limits.max_cube_map_tex_size || width != height
            } else {
                width as u32 > pre.limits.max_tex_size || height as u32 > pre.limits.max_tex_size
            }) {
                WebGLError::InvalidValue
            } else {
                WebGLError::InvalidEnum
            }
        },
    }
}


/// The first validation failure of a framebuffer-to-texture copy, or
/// `None`: the bound framebuffer must be usable before anything else is
/// looked at.
pub open spec fn spec_copy_tex_image2d_error(
    pre: WebGLRenderingContext,
    target: u32,
    level: i32,
    internal_format: u32,
    width: i32,
    height: i32,
    border: i32,
) -> Option<WebGLError> {
    let s = pre.state;
    match crate::context::spec_validate_framebuffer(s) {
        Err(e) => Some(e),
        Ok(()) => {
            match crate::textures::spec_tex_image_target(target) {
                None => Some(WebGLError::InvalidEnum),
                Some(t) => {
                    let slot = s.tex_units.units@[s.tex_units.active_unit as int].spec_binding(
                        t.spec_binding_target(),
                    );
                    if slot is None {
                        Some(WebGLError::InvalidOperation)
                    } else if !spec_is_tex_format(internal_format) {
                        Some(WebGLError::InvalidEnum)
                    } else if level < 0 || level > 31 || width < 0 || height < 0 || border != 0 {
                        Some(WebGLError::InvalidValue)
                    } else if (if t.spec_is_cubic() {
                        width as u32 > pre.limits.max_cube_map_tex_size || height as u32
                            > pre.limits.max_cube_map_tex_size || width != height
                    } else {
                        width as u32 > pre.limits.max_tex_size || height as u32
                            > pre.limits.max_tex_size
                    }) {
                        Some(WebGLError::InvalidValue)
                    } else {
                        None
                    }
                },
            }
        },
    }
}

impl WebGLRenderingContext {
    /// Copies a rectangle of the bound framebuffer into one texture
    /// image level, recording the level with no client data type. The
    /// framebuffer must be usable.
    #[verifier::rlimit(100)]
    pub fn CopyTexImage2D(
        &mut self,
        target: u32,
        level: i32,
        internal_format: u32,
        x: i32,
        y: i32,
        width: i32,
        height: i32,
        border: i32,
    )
        requires
            old(self).valid(),
        ensures
            final(self).valid(),
            if old(self).lost {
                rejected(*old(self), *final(self), WebGLError::ContextLost)
            } else {
                match spec_copy_tex_image2d_error(
                    *old(self),
                    target,
                    level,
                    internal_format,
                    width,
                    height,
                    border,
                ) {
                    Some(e) => rejected(*old(self), *final(self), e),
                    None => ({
                        let s = old(self).state;
                        let t = crate::textures::spec_tex_image_target(target)->0;
                        let tex_id = s.tex_units.units@[s.tex_units.active_unit as int]
                            .spec_binding(t.spec_binding_target())->0;
                        spec_upload_applied(
                            *old(self),
                            *final(self),
                            tex_id,
                            TexImageInfo {
                                face_target: spec_tex_face(t),
                                level: level as u32,
                                width: width as u32,
                                height: height as u32,
                                internal_format,
                                data_type: None,
                            },
                        ) && final(self).outbox@.last() == WebGLCommand::CopyTexImage2D(
                            spec_tex_face(t),
                            level as u32,
                            internal_format,
                            x,
                            y,
                            width as u32,
                            height as u32,
                        )
                    }),
                }
            },
    {
        if self.check_lost() {
            return ;
        }
        match self.validate_framebuffer() {
            Err(e) => return self.webgl_error(e),
            Ok(()) => (),
        }
        let t = match TexImageTarget::from_gl_constant(target) {
            Some(t) => t,
            None => return self.webgl_error(WebGLError::InvalidEnum),
        };
        let slot = match self.state.tex_units.active_texture_slot(t.binding_target()) {
            Ok(slot) => slot,
            Err(_) => return self.webgl_error(WebGLError::InvalidEnum),
        };
        let tex_id = match slot {
            Some(id) => id,
            None => return self.webgl_error(WebGLError::InvalidOperation),
        };
        let format_ok = match internal_format {
            constants::ALPHA | constants::LUMINANCE | constants::LUMINANCE_ALPHA | constants::RGB
                | constants::RGBA => true,
            _ => false,
        };
        if !format_ok {
            return self.webgl_error(WebGLError::InvalidEnum);
        }
        if level < 0 || level > 31 || width < 0 || height < 0 || border != 0 {
            return self.webgl_error(WebGLError::InvalidValue);
        }
        if t.is_cubic() {
            if width as u32 > self.limits.max_cube_map_tex_size || height as u32
                > self.limits.max_cube_map_tex_size || width != height {
                return self.webgl_error(WebGLError::InvalidValue);
            }
        } else {
            if width as u32 > self.limits.max_tex_size || height as u32
                > self.limits.max_tex_size {
                return self.webgl_error(WebGLError::InvalidValue);
            }
        }
        let face = t.as_gl_constant();
        let info = TexImageInfo {
            face_target: face,
            level: level as u32,
            width: width as u32,
            height: height as u32,
            internal_format,
            data_type: None,
        };
        let idx = (tex_id - 1) as usize;
        crate::objects::set_image(&mut self.state.textures[idx].images, info);
        let ghost pre_outbox = self.outbox@;
        self.send_command(
            WebGLCommand::CopyTexImage2D(
                face,
                level as u32,
                internal_format,
                x,
                y,
                width as u32,
                height as u32,
            ),
        );
        proof {
            assert(self.outbox@.subrange(0, pre_outbox.len() as int) =~= pre_outbox);
            let pre = *old(self);
            let tspec = crate::textures::spec_tex_image_target(target)->0;
            assert(tspec == t);
            assert(face == spec_tex_face(t));
            assert forall|f: u32, l: u32|
                !(f == info.face_target && l == info.level) implies (
                #[trigger] crate::objects::spec_has_image(
                    self.state.textures@[tex_id - 1].images@,
                    f,
                    l,
                ) == crate::objects::spec_has_image(
                    pre.state.textures@[tex_id - 1].images@,
                    f,
                    l,
                ) && (crate::objects::spec_has_image(pre.state.textures@[tex_id - 1].images@, f, l)
                    ==> crate::objects::spec_image_at(
                    self.state.textures@[tex_id - 1].images@,
                    f,
                    l,
                ) == crate::objects::spec_image_at(
                    pre.state.textures@[tex_id - 1].images@,
                    f,
                    l,
                ))) by {
                assert(crate::objects::spec_has_image(self.state.textures@[tex_id - 1].images@, f, l)
                    == crate::objects::spec_has_image(pre.state.textures@[tex_id - 1].images@, f, l));
            }
            assert(spec_upload_applied(pre, *self, tex_id, info));
        }
    }

    /// Copies a rectangle of the bound framebuffer into a rectangle of
    /// one recorded texture image level; the destination rectangle must
    /// stay inside the recorded level. The tracked state does not
    /// change.
    #[verifier::rlimit(100)]
    pub fn CopyTexSubImage2D(
        &mut self,
        target: u32,
        level: i32,
        xoffset: i32,
        yoffset: i32,
        x: i32,
        y: i32,
        width: i32,
        height: i32,
    )
        requires
            old(self).valid(),
        ensures
            final(self).valid(),
            if old(self).lost {
                rejected(*old(self), *final(self), WebGLError::ContextLost)
            } else {
                match spec_copy_tex_sub_image2d_error(
                    *old(self),
                    target,
                    level,
                    xoffset,
                    yoffset,
                    width,
                    height,
                ) {
                    Some(e) => rejected(*old(self), *final(self), e),
                    None => ({
                        let t = crate::textures::spec_tex_image_target(target)->0;
                        sent1(
                            *old(self),
                            *final(self),
                            WebGLCommand::CopyTexSubImage2D(
                                spec_tex_face(t),
                                level as u32,
                                xoffset,
                                yoffset,
                                x,
                                y,
                                width as u32,
                                height as u32,
                            ),
                        )
                    }),
                }
            },
    {
        if self.check_lost() {
            return ;
        }
        match self.validate_framebuffer() {
            Err(e) => return self.webgl_error(e),
            Ok(()) => (),
        }
        let t = match TexImageTarget::from_gl_constant(target) {
            Some(t) => t,
            None => return self.webgl_error(WebGLError::InvalidEnum),
        };
        let slot = match self.state.tex_units.active_texture_slot(t.binding_target()) {
            Ok(slot) => slot,
            Err(_) => return self.webgl_error(WebGLError::InvalidEnum),
        };
        let tex_id = match slot {
            Some(id) => id,
            None => return self.webgl_error(WebGLError::InvalidOperation),
        };
        if level < 0 || level > 31 || width < 0 || height < 0 {
            return self.webgl_error(WebGLError::InvalidValue);
        }
        if t.is_cubic() {
            if width as u32 > self.limits.max_cube_map_tex_size || height as u32
                > self.limits.max_cube_map_tex_size {
                return self.webgl_error(WebGLError::InvalidValue);
            }
        } else {
            if width as u32 > self.limits.max_tex_size || height as u32
                > self.limits.max_tex_size {
                return self.webgl_error(WebGLError::InvalidValue);
            }
        }
        let face = t.as_gl_constant();
        let tex_idx = (tex_id - 1) as usize;
        let info = match crate::objects::find_image(
            &self.state.textures[tex_idx].images,
            face,
            level as u32,
        ) {
            Some(info) => info,
            None => return self.webgl_error(WebGLError::InvalidOperation),
        };
        if xoffset < 0 || yoffset < 0 || (xoffset as i64) + (width as i64) > info.width as i64
            || (yoffset as i64) + (height as i64) > info.height as i64 {
            return self.webgl_error(WebGLError::InvalidValue);
        }
        self.send_command(
            WebGLCommand::CopyTexSubImage2D(
                face,
                level as u32,
                xoffset,
                yoffset,
                x,
                y,
                width as u32,
                height as u32,
            ),
        );
    }
}

/// The first validation failure of a framebuffer-to-sub-image copy, or
/// `None`.
pub open spec fn spec_copy_tex_sub_image2d_error(
    pre: WebGLRenderingContext,
    target: u32,
    level: i32,
    xoffset: i32,
    yoffset: i32,
    width: i32,
    height: i32,
) -> Option<WebGLError> {
    let s = pre.state;
    match crate::context::spec_validate_framebuffer(s) {
        Err(e) => Some(e),
        Ok(()) => {
            match crate::textures::spec_tex_image_target(target) {
                None => Some(WebGLError::InvalidEnum),
                Some(t) => {
                    let slot = s.tex_units.units@[s.tex_units.active_unit as int].spec_binding(
                        t.spec_binding_target(),
                    );
                    if slot is None {
                        Some(WebGLError::InvalidOperation)
                    } else if level < 0 || level > 31 || width < 0 || height < 0 {
                        Some(WebGLError::InvalidValue)
                    } else if (if t.spec_is_cubic() {
                        width as u32 > pre.limits.max_cube_map_tex_size || height as u32
                            > pre.limits.max_cube_map_tex_size
                    } else {
                        width as u32 > pre.limits.max_tex_size || height as u32
                            > pre.limits.max_tex_size
                    }) {
                        Some(WebGLError::InvalidValue)
                    } else {
                        let tex_id = slot->0;
                        let images = s.textures@[tex_id - 1].images@;
                        if !crate::objects::spec_has_image(images, spec_tex_face(t), level as u32) {
                            Some(WebGLError::InvalidOperation)
                        } else {
                            let info = crate::objects::spec_image_at(
                                images,
                                spec_tex_face(t),
                                level as u32,
                            );
                            if xoffset < 0 || yoffset < 0 || xoffset + width > info.width
                                || yoffset + height > info.height {
                                Some(WebGLError::InvalidValue)
                            } else {
                                None
                            }
                        }
                    }
                },
            }
        },
    }
}

} // verus!


