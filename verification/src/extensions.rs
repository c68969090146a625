//! The extension manager: which optional capability sets are enabled, which
//! enums they legalise, and the format and type substitutions they
//! introduce.

use vstd::prelude::*;

use crate::constants;

verus! {

/// The backend's half-float data type an enabled half-float capability
/// substitutes for the client-visible constant.
pub const HALF_FLOAT: u32 = 0x140B;
/// Sized internal formats substituted for float uploads.
pub const RGBA32F: u32 = 0x8814;
pub const RGB32F: u32 = 0x8815;
pub const RGBA16F: u32 = 0x881A;
pub const RGB16F: u32 = 0x881B;
/// The hint target the standard-derivatives capability legalises.
pub const FRAGMENT_SHADER_DERIVATIVE_HINT_OES: u32 = 0x8B8B;

/// The optional capability sets this core knows.
#[derive(Clone, Copy, Debug, PartialEq, Eq, Structural)]
pub enum WebGLExtensionName {
    AngleInstancedArrays,
    ExtBlendMinmax,
    OesElementIndexUint,
    OesStandardDerivatives,
    OesTextureFloat,
    OesTextureFloatLinear,
    OesTextureHalfFloat,
    OesTextureHalfFloatLinear,
    OesVertexArrayObject,
}

/// The on/off state of every optional capability set.
#[derive(Clone, Copy, Debug, PartialEq, Eq, Structural)]
pub struct WebGLExtensions {
    pub angle_instanced_arrays: bool,
    pub ext_blend_minmax: bool,
    pub oes_element_index_uint: bool,
    pub oes_standard_derivatives: bool,
    pub oes_texture_float: bool,
    pub oes_texture_float_linear: bool,
    pub oes_texture_half_float: bool,
    pub oes_texture_half_float_linear: bool,
    pub oes_vertex_array_object: bool,
}

impl WebGLExtensions {
    /// All capability sets disabled, the state of a fresh context.
    pub fn new() -> (r: WebGLExtensions)
        ensures
            r == WebGLExtensions::spec_new(),
    {
        WebGLExtensions {
            angle_instanced_arrays: false,
            ext_blend_minmax: false,
            oes_element_index_uint: false,
            oes_standard_derivatives: false,
            oes_texture_float: false,
            oes_texture_float_linear: false,
            oes_texture_half_float: false,
            oes_texture_half_float_linear: false,
            oes_vertex_array_object: false,
        }
    }

    /// The value `new` returns.
    pub open spec fn spec_new() -> WebGLExtensions {
        WebGLExtensions {
            angle_instanced_arrays: false,
            ext_blend_minmax: false,
            oes_element_index_uint: false,
            oes_standard_derivatives: false,
            oes_texture_float: false,
            oes_texture_float_linear: false,
            oes_texture_half_float: false,
            oes_texture_half_float_linear: false,
            oes_vertex_array_object: false,
        }
    }

    /// The state after enabling one capability set.
    pub open spec fn spec_enabled(self, name: WebGLExtensionName) -> WebGLExtensions {
        match name {
            WebGLExtensionName::AngleInstancedArrays => WebGLExtensions {
                angle_instanced_arrays: true,
                ..self
            },
            WebGLExtensionName::ExtBlendMinmax => WebGLExtensions {
                ext_blend_minmax: true,
                ..self
            },
            WebGLExtensionName::OesElementIndexUint => WebGLExtensions {
                oes_element_index_uint: true,
                ..self
            },
            WebGLExtensionName::OesStandardDerivatives => WebGLExtensions {
                oes_standard_derivatives: true,
                ..self
            },
            WebGLExtensionName::OesTextureFloat => WebGLExtensions {
                oes_texture_float: true,
                ..self
            },
            WebGLExtensionName::OesTextureFloatLinear => WebGLExtensions {
                oes_texture_float_linear: true,
                ..self
            },
            WebGLExtensionName::OesTextureHalfFloat => WebGLExtensions {
                oes_texture_half_float: true,
                ..self
            },
            WebGLExtensionName::OesTextureHalfFloatLinear => WebGLExtensions {
                oes_texture_half_float_linear: true,
                ..self
            },
            WebGLExtensionName::OesVertexArrayObject => WebGLExtensions {
                oes_vertex_array_object: true,
                ..self
            },
        }
    }

    /// Enables one capability set.
    pub fn enable(&mut self, name: WebGLExtensionName)
        ensures
            *final(self) == old(self).spec_enabled(name),
    {
        match name {
            WebGLExtensionName::AngleInstancedArrays => self.angle_instanced_arrays = true,
            WebGLExtensionName::ExtBlendMinmax => self.ext_blend_minmax = true,
            WebGLExtensionName::OesElementIndexUint => self.oes_element_index_uint = true,
            WebGLExtensionName::OesStandardDerivatives => self.oes_standard_derivatives = true,
            WebGLExtensionName::OesTextureFloat => self.oes_texture_float = true,
            WebGLExtensionName::OesTextureFloatLinear => self.oes_texture_float_linear = true,
            WebGLExtensionName::OesTextureHalfFloat => self.oes_texture_half_float = true,
            WebGLExtensionName::OesTextureHalfFloatLinear => {
                self.oes_texture_half_float_linear = true
            },
            WebGLExtensionName::OesVertexArrayObject => self.oes_vertex_array_object = true,
        }
    }

    /// Whether a pixel data type is legal for texture uploads: the core
    /// types always, the float types only under their capability sets.
    pub open spec fn spec_is_tex_type_enabled(self, data_type: u32) -> bool {
        ||| data_type == constants::UNSIGNED_BYTE
        ||| data_type == constants::UNSIGNED_SHORT_4_4_4_4
        ||| data_type == constants::UNSIGNED_SHORT_5_5_5_1
        ||| data_type == constants::UNSIGNED_SHORT_5_6_5
        ||| (data_type == constants::FLOAT && self.oes_texture_float)
        ||| (data_type == constants::HALF_FLOAT_OES && self.oes_texture_half_float)
    }

    /// Whether a pixel data type is legal for texture uploads.
    pub fn is_tex_type_enabled(&self, data_type: u32) -> (r: bool)
        ensures
            r == self.spec_is_tex_type_enabled(data_type),
    {
        match data_type {
            constants::UNSIGNED_BYTE
            | constants::UNSIGNED_SHORT_4_4_4_4
            | constants::UNSIGNED_SHORT_5_5_5_1
            | constants::UNSIGNED_SHORT_5_6_5 => true,
            constants::FLOAT => self.oes_texture_float,
            constants::HALF_FLOAT_OES => self.oes_texture_half_float,
            _ => false,
        }
    }

    /// Whether LINEAR filtering is defined for textures of the given data
    /// type: always for the fixed-point types, for the float types only
    /// under their linear-filtering capability sets.
    pub open spec fn spec_is_filterable(self, data_type: u32) -> bool {
        if data_type == constants::FLOAT {
            self.oes_texture_float_linear
        } else if data_type == constants::HALF_FLOAT_OES {
            self.oes_texture_half_float_linear
        } else {
            true
        }
    }

    /// Whether LINEAR filtering is defined for textures of the given data
    /// type.
    pub fn is_filterable(&self, data_type: u32) -> (r: bool)
        ensures
            r == self.spec_is_filterable(data_type),
    {
        match data_type {
            constants::FLOAT => self.oes_texture_float_linear,
            constants::HALF_FLOAT_OES => self.oes_texture_half_float_linear,
            _ => true,
        }
    }

    /// The data type actually sent to the backend: the half-float
    /// capability substitutes the backend's half-float constant.
    pub open spec fn spec_effective_type(self, data_type: u32) -> u32 {
        if data_type == constants::HALF_FLOAT_OES && self.oes_texture_half_float {
            HALF_FLOAT
        } else {
            data_type
        }
    }

    /// The data type actually sent to the backend.
    pub fn effective_type(&self, data_type: u32) -> (r: u32)
        ensures
            r == self.spec_effective_type(data_type),
    {
        if data_type == constants::HALF_FLOAT_OES && self.oes_texture_half_float {
            HALF_FLOAT
        } else {
            data_type
        }
    }

    /// The internal format actually sent to the backend: float uploads are
    /// remapped to the sized float formats.
    pub open spec fn spec_effective_internal_format(self, format: u32, data_type: u32) -> u32 {
        if data_type == constants::FLOAT && format == constants::RGBA {
            RGBA32F
        } else if data_type == constants::FLOAT && format == constants::RGB {
            RGB32F
        } else if data_type == constants::HALF_FLOAT_OES && format == constants::RGBA {
            RGBA16F
        } else if data_type == constants::HALF_FLOAT_OES && format == constants::RGB {
            RGB16F
        } else {
            format
        }
    }

    /// The internal format actually sent to the backend.
    pub fn get_effective_tex_internal_format(&self, format: u32, data_type: u32) -> (r: u32)
        ensures
            r == self.spec_effective_internal_format(format, data_type),
    {
        if data_type == constants::FLOAT && format == constants::RGBA {
            RGBA32F
        } else if data_type == constants::FLOAT && format == constants::RGB {
            RGB32F
        } else if data_type == constants::HALF_FLOAT_OES && format == constants::RGBA {
            RGBA16F
        } else if data_type == constants::HALF_FLOAT_OES && format == constants::RGB {
            RGB16F
        } else {
            format
        }
    }

    /// Whether the MIN and MAX blend equations are legal.
    pub fn is_blend_minmax_enabled(&self) -> (r: bool)
        ensures
            r == self.ext_blend_minmax,
    {
        self.ext_blend_minmax
    }

    /// Whether UNSIGNED_INT element indices are legal.
    pub fn is_element_index_uint_enabled(&self) -> (r: bool)
        ensures
            r == self.oes_element_index_uint,
    {
        self.oes_element_index_uint
    }

    /// Whether a context-wide parameter name is legal to query.
    pub open spec fn spec_is_get_parameter_name_enabled(self, name: u32) -> bool {
        if name == constants::VERTEX_ARRAY_BINDING_OES {
            self.oes_vertex_array_object
        } else {
            true
        }
    }

    /// Whether a context-wide parameter name is legal to query.
    pub fn is_get_parameter_name_enabled(&self, name: u32) -> (r: bool)
        ensures
            r == self.spec_is_get_parameter_name_enabled(name),
    {
        if name == constants::VERTEX_ARRAY_BINDING_OES {
            self.oes_vertex_array_object
        } else {
            true
        }
    }

    /// Whether a texture parameter name is legal to query or set.
    pub open spec fn spec_is_tex_parameter_name_enabled(self, name: u32) -> bool {
        ||| name == constants::TEXTURE_MAG_FILTER
        ||| name == constants::TEXTURE_MIN_FILTER
        ||| name == constants::TEXTURE_WRAP_S
        ||| name == constants::TEXTURE_WRAP_T
    }

    /// Whether a texture parameter name is legal to query or set.
    pub fn is_get_tex_parameter_name_enabled(&self, name: u32) -> (r: bool)
        ensures
            r == self.spec_is_tex_parameter_name_enabled(name),
    {
        match name {
            constants::TEXTURE_MAG_FILTER
            | constants::TEXTURE_MIN_FILTER
            | constants::TEXTURE_WRAP_S
            | constants::TEXTURE_WRAP_T => true,
            _ => false,
        }
    }

    /// Whether a vertex attribute parameter name is legal to query.
    pub open spec fn spec_is_get_vertex_attrib_name_enabled(self, name: u32) -> bool {
        if name == constants::VERTEX_ATTRIB_ARRAY_DIVISOR_ANGLE {
            self.angle_instanced_arrays
        } else {
            true
        }
    }

    /// Whether a vertex attribute parameter name is legal to query.
    pub fn is_get_vertex_attrib_name_enabled(&self, name: u32) -> (r: bool)
        ensures
            r == self.spec_is_get_vertex_attrib_name_enabled(name),
    {
        if name == constants::VERTEX_ATTRIB_ARRAY_DIVISOR_ANGLE {
            self.angle_instanced_arrays
        } else {
            true
        }
    }

    /// Whether a hint target beyond GENERATE_MIPMAP_HINT is legal.
    pub open spec fn spec_is_hint_target_enabled(self, target: u32) -> bool {
        target == FRAGMENT_SHADER_DERIVATIVE_HINT_OES && self.oes_standard_derivatives
    }

    /// Whether a hint target beyond GENERATE_MIPMAP_HINT is legal.
    pub fn is_hint_target_enabled(&self, target: u32) -> (r: bool)
        ensures
            r == self.spec_is_hint_target_enabled(target),
    {
        target == FRAGMENT_SHADER_DERIVATIVE_HINT_OES && self.oes_standard_derivatives
    }
}

} // verus!
