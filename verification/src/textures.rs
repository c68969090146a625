//! The per-unit texture binding table.
//!
//! One slot pair (2D binding, cube-map binding) exists per texture unit; the
//! unit count is fixed at context creation from the backend-reported limit.

use vstd::prelude::*;

use crate::constants;
use crate::error::WebGLError;

verus! {

/// The targets a single texture image call can address.
#[derive(Clone, Copy, Debug, PartialEq, Eq, Structural)]
pub enum TexImageTarget {
    Texture2D,
    CubeMapPositiveX,
    CubeMapNegativeX,
    CubeMapPositiveY,
    CubeMapNegativeY,
    CubeMapPositiveZ,
    CubeMapNegativeZ,
}

/// The image target a GL constant denotes, if any.
pub open spec fn spec_tex_image_target(c: u32) -> Option<TexImageTarget> {
    if c == constants::TEXTURE_2D {
        Some(TexImageTarget::Texture2D)
    } else if c == constants::TEXTURE_CUBE_MAP_POSITIVE_X {
        Some(TexImageTarget::CubeMapPositiveX)
    } else if c == constants::TEXTURE_CUBE_MAP_NEGATIVE_X {
        Some(TexImageTarget::CubeMapNegativeX)
    } else if c == constants::TEXTURE_CUBE_MAP_POSITIVE_Y {
        Some(TexImageTarget::CubeMapPositiveY)
    } else if c == constants::TEXTURE_CUBE_MAP_NEGATIVE_Y {
        Some(TexImageTarget::CubeMapNegativeY)
    } else if c == constants::TEXTURE_CUBE_MAP_POSITIVE_Z {
        Some(TexImageTarget::CubeMapPositiveZ)
    } else if c == constants::TEXTURE_CUBE_MAP_NEGATIVE_Z {
        Some(TexImageTarget::CubeMapNegativeZ)
    } else {
        None
    }
}

impl TexImageTarget {
    /// Parses a GL constant into an image target.
    pub fn from_gl_constant(c: u32) -> (r: Option<TexImageTarget>)
        ensures
            r == spec_tex_image_target(c),
    {
        match c {
            constants::TEXTURE_2D => Some(TexImageTarget::Texture2D),
            constants::TEXTURE_CUBE_MAP_POSITIVE_X => Some(TexImageTarget::CubeMapPositiveX),
            constants::TEXTURE_CUBE_MAP_NEGATIVE_X => Some(TexImageTarget::CubeMapNegativeX),
            constants::TEXTURE_CUBE_MAP_POSITIVE_Y => Some(TexImageTarget::CubeMapPositiveY),
            constants::TEXTURE_CUBE_MAP_NEGATIVE_Y => Some(TexImageTarget::CubeMapNegativeY),
            constants::TEXTURE_CUBE_MAP_POSITIVE_Z => Some(TexImageTarget::CubeMapPositiveZ),
            constants::TEXTURE_CUBE_MAP_NEGATIVE_Z => Some(TexImageTarget::CubeMapNegativeZ),
            _ => None,
        }
    }

    /// Whether the target is one of the six cube-map faces.
    pub open spec fn spec_is_cubic(self) -> bool {
        self != TexImageTarget::Texture2D
    }

    /// Whether the target is one of the six cube-map faces.
    pub fn is_cubic(self) -> (r: bool)
        ensures
            r == self.spec_is_cubic(),
    {
        !matches!(self, TexImageTarget::Texture2D)
    }

    /// The GL constant for this target.
    pub fn as_gl_constant(self) -> (r: u32)
        ensures
            spec_tex_image_target(r) == Some(self),
    {
        match self {
            TexImageTarget::Texture2D => constants::TEXTURE_2D,
            TexImageTarget::CubeMapPositiveX => constants::TEXTURE_CUBE_MAP_POSITIVE_X,
            TexImageTarget::CubeMapNegativeX => constants::TEXTURE_CUBE_MAP_NEGATIVE_X,
            TexImageTarget::CubeMapPositiveY => constants::TEXTURE_CUBE_MAP_POSITIVE_Y,
            TexImageTarget::CubeMapNegativeY => constants::TEXTURE_CUBE_MAP_NEGATIVE_Y,
            TexImageTarget::CubeMapPositiveZ => constants::TEXTURE_CUBE_MAP_POSITIVE_Z,
            TexImageTarget::CubeMapNegativeZ => constants::TEXTURE_CUBE_MAP_NEGATIVE_Z,
        }
    }

    /// The binding target whose slot holds the texture this image target
    /// addresses.
    pub fn binding_target(self) -> (r: u32)
        ensures
            r == self.spec_binding_target(),
    {
        if self.is_cubic() {
            constants::TEXTURE_CUBE_MAP
        } else {
            constants::TEXTURE_2D
        }
    }

    /// The value `binding_target` returns.
    pub open spec fn spec_binding_target(self) -> u32 {
        if self.spec_is_cubic() {
            constants::TEXTURE_CUBE_MAP
        } else {
            constants::TEXTURE_2D
        }
    }
}

/// One texture unit: at most one bound texture per target kind.
#[derive(Clone, Copy, Debug, PartialEq, Eq)]
pub struct TextureUnit {
    pub tex_2d: Option<u32>,
    pub tex_cube_map: Option<u32>,
}

impl TextureUnit {
    /// An empty unit.
    pub fn empty() -> (r: TextureUnit)
        ensures
            r.tex_2d is None,
            r.tex_cube_map is None,
    {
        TextureUnit { tex_2d: None, tex_cube_map: None }
    }

    /// The binding this unit holds for a valid texture target.
    pub open spec fn spec_binding(self, target: u32) -> Option<u32> {
        if target == constants::TEXTURE_2D {
            self.tex_2d
        } else {
            self.tex_cube_map
        }
    }
}

/// The per-unit texture binding table and the active-unit selector.
#[derive(Clone, Debug, PartialEq)]
pub struct Textures {
    pub active_unit: u32,
    pub units: Vec<TextureUnit>,
}

/// Whether a GL constant names one of the two texture binding targets.
pub open spec fn spec_is_texture_target(target: u32) -> bool {
    target == constants::TEXTURE_2D || target == constants::TEXTURE_CUBE_MAP
}

impl Textures {
    /// Consistency of the table: the selector addresses an existing unit
    /// and the unit count is the one fixed at creation.
    pub open spec fn wf(self, unit_count: u32) -> bool {
        &&& self.units@.len() == unit_count
        &&& (self.active_unit as int) < self.units@.len()
    }

    /// Builds the table for the given backend-reported unit count.
    pub fn new(max_combined_textures: u32) -> (r: Textures)
        requires
            1 <= max_combined_textures,
        ensures
            r.wf(max_combined_textures),
            r.active_unit == 0,
            forall|i: int| 0 <= i < r.units@.len() ==> r.units@[i] == (TextureUnit {
                tex_2d: None,
                tex_cube_map: None,
            }),
    {
        let mut units: Vec<TextureUnit> = Vec::new();
        let mut i: u32 = 0;
        while i < max_combined_textures
            invariant
                i <= max_combined_textures,
                units@.len() == i,
                forall|j: int| 0 <= j < units@.len() ==> units@[j] == (TextureUnit {
                    tex_2d: None,
                    tex_cube_map: None,
                }),
            decreases max_combined_textures - i,
        {
            units.push(TextureUnit::empty());
            i = i + 1;
        }
        Textures { active_unit: 0, units }
    }

    /// The GL enum naming the active unit.
    pub fn active_unit_enum(&self) -> (r: u32)
        requires
            self.active_unit <= 0x10000,
        ensures
            r == self.active_unit + constants::TEXTURE0,
    {
        self.active_unit + constants::TEXTURE0
    }

    /// Selects the active unit by its GL enum; an enum outside the unit
    /// range is rejected with `InvalidEnum` and changes nothing.
    pub fn set_active_unit_enum(&mut self, index: u32) -> (r: Result<(), WebGLError>)
        requires
            old(self).units@.len() <= 0x10000,
        ensures
            final(self).units == old(self).units,
            if constants::TEXTURE0 <= index
                && index - constants::TEXTURE0 < old(self).units@.len() {
                r is Ok && final(self).active_unit == index - constants::TEXTURE0
            } else {
                r == Result::<(), WebGLError>::Err(WebGLError::InvalidEnum)
                    && *final(self) == *old(self)
            },
    {
        if index < constants::TEXTURE0
            || (index - constants::TEXTURE0) as usize >= self.units.len() {
            return Err(WebGLError::InvalidEnum);
        }
        self.active_unit = index - constants::TEXTURE0;
        Ok(())
    }

    /// The binding the active unit holds for the given target; a target
    /// that is not a texture target is rejected with `InvalidEnum`.
    pub fn active_texture_slot(&self, target: u32) -> (r: Result<Option<u32>, WebGLError>)
        requires
            (self.active_unit as int) < self.units@.len(),
        ensures
            r == (if spec_is_texture_target(target) {
                Result::<Option<u32>, WebGLError>::Ok(
                    self.units@[self.active_unit as int].spec_binding(target),
                )
            } else {
                Result::<Option<u32>, WebGLError>::Err(WebGLError::InvalidEnum)
            }),
    {
        let unit = &self.units[self.active_unit as usize];
        match target {
            constants::TEXTURE_2D => Ok(unit.tex_2d),
            constants::TEXTURE_CUBE_MAP => Ok(unit.tex_cube_map),
            _ => Err(WebGLError::InvalidEnum),
        }
    }

    /// The texture bound in the active unit for the slot an image target
    /// addresses.
    pub fn active_texture_for_image_target(&self, target: TexImageTarget) -> (r: Option<u32>)
        requires
            (self.active_unit as int) < self.units@.len(),
        ensures
            r == self.units@[self.active_unit as int].spec_binding(target.spec_binding_target()),
    {
        let unit = &self.units[self.active_unit as usize];
        if target.is_cubic() {
            unit.tex_cube_map
        } else {
            unit.tex_2d
        }
    }

    /// Rebinds the active unit's slot for a valid texture target.
    pub fn set_active_texture_slot(&mut self, target: u32, binding: Option<u32>)
        requires
            (old(self).active_unit as int) < old(self).units@.len(),
            spec_is_texture_target(target),
        ensures
            final(self).active_unit == old(self).active_unit,
            final(self).units@ == old(self).units@.update(
                old(self).active_unit as int,
                (if target == constants::TEXTURE_2D {
                    TextureUnit {
                        tex_2d: binding,
                        ..old(self).units@[old(self).active_unit as int]
                    }
                } else {
                    TextureUnit {
                        tex_cube_map: binding,
                        ..old(self).units@[old(self).active_unit as int]
                    }
                }),
            ),
    {
        let i = self.active_unit as usize;
        if target == constants::TEXTURE_2D {
            self.units[i].tex_2d = binding;
        } else {
            self.units[i].tex_cube_map = binding;
        }
    }
}

} // verus!
