//! Typed surface of the host's graphics layer: shader-parameter marker
//! types and sampler/render options. The host calls themselves are not part
//! of the library; these types let the surrounding glue speak about shader
//! parameters and sampler settings with the type system instead of raw
//! host constants.

use vstd::prelude::*;

verus! {

/// Marker for a shader parameter holding a `bool`.
pub struct ShaderParamTypeBool;

/// Marker for a shader parameter holding a single-precision scalar.
pub struct ShaderParamTypeFloat;

/// Marker for a shader parameter holding an `i32`.
pub struct ShaderParamTypeInt;

/// Marker for a shader parameter holding a 2-vector of scalars.
pub struct ShaderParamTypeVec2;

/// Marker for a shader parameter holding a 3-vector of scalars.
pub struct ShaderParamTypeVec3;

/// Marker for a shader parameter holding a 4-vector of scalars.
pub struct ShaderParamTypeVec4;

/// Marker for a shader parameter holding a 2-vector of integers.
pub struct ShaderParamTypeIVec2;

/// Marker for a shader parameter holding a 3-vector of integers.
pub struct ShaderParamTypeIVec3;

/// Marker for a shader parameter holding a 4-vector of integers.
pub struct ShaderParamTypeIVec4;

/// Marker for a shader parameter holding a 4-by-4 matrix.
pub struct ShaderParamTypeMat4;

/// Marker for a shader parameter holding a texture.
pub struct ShaderParamTypeTexture;

/// The kinds of shader parameters the host distinguishes.
#[derive(Clone, Copy, PartialEq, Eq, Structural, Debug)]
pub enum ShaderParamTypeKind {
    Unknown,
    Bool,
    Float,
    Int,
    String,
    Vec2,
    Vec3,
    Vec4,
    IVec2,
    IVec3,
    IVec4,
    Mat4,
    Texture,
}

/// Marker types that stand for exactly one shader-parameter kind.
pub trait ShaderParamType {
    /// The kind this marker stands for.
    fn corresponding_enum_variant() -> ShaderParamTypeKind;
}

impl ShaderParamType for ShaderParamTypeBool {
    fn corresponding_enum_variant() -> (r: ShaderParamTypeKind)
        ensures
            r == ShaderParamTypeKind::Bool,
    {
        ShaderParamTypeKind::Bool
    }
}

impl ShaderParamType for ShaderParamTypeFloat {
    fn corresponding_enum_variant() -> (r: ShaderParamTypeKind)
        ensures
            r == ShaderParamTypeKind::Float,
    {
        ShaderParamTypeKind::Float
    }
}

impl ShaderParamType for ShaderParamTypeInt {
    fn corresponding_enum_variant() -> (r: ShaderParamTypeKind)
        ensures
            r == ShaderParamTypeKind::Int,
    {
        ShaderParamTypeKind::Int
    }
}

impl ShaderParamType for ShaderParamTypeVec2 {
    fn corresponding_enum_variant() -> (r: ShaderParamTypeKind)
        ensures
            r == ShaderParamTypeKind::Vec2,
    {
        ShaderParamTypeKind::Vec2
    }
}

impl ShaderParamType for ShaderParamTypeVec3 {
    fn corresponding_enum_variant() -> (r: ShaderParamTypeKind)
        ensures
            r == ShaderParamTypeKind::Vec3,
    {
        ShaderParamTypeKind::Vec3
    }
}

impl ShaderParamType for ShaderParamTypeVec4 {
    fn corresponding_enum_variant() -> (r: ShaderParamTypeKind)
        ensures
            r == ShaderParamTypeKind::Vec4,
    {
        ShaderParamTypeKind::Vec4
    }
}

impl ShaderParamType for ShaderParamTypeIVec2 {
    fn corresponding_enum_variant() -> (r: ShaderParamTypeKind)
        ensures
            r == ShaderParamTypeKind::IVec2,
    {
        ShaderParamTypeKind::IVec2
    }
}

impl ShaderParamType for ShaderParamTypeIVec3 {
    fn corresponding_enum_variant() -> (r: ShaderParamTypeKind)
        ensures
            r == ShaderParamTypeKind::IVec3,
    {
        ShaderParamTypeKind::IVec3
    }
}

impl ShaderParamType for ShaderParamTypeIVec4 {
    fn corresponding_enum_variant() -> (r: ShaderParamTypeKind)
        ensures
            r == ShaderParamTypeKind::IVec4,
    {
        ShaderParamTypeKind::IVec4
    }
}

impl ShaderParamType for ShaderParamTypeMat4 {
    fn corresponding_enum_variant() -> (r: ShaderParamTypeKind)
        ensures
            r == ShaderParamTypeKind::Mat4,
    {
        ShaderParamTypeKind::Mat4
    }
}

impl ShaderParamType for ShaderParamTypeTexture {
    fn corresponding_enum_variant() -> (r: ShaderParamTypeKind)
        ensures
            r == ShaderParamTypeKind::Texture,
    {
        ShaderParamTypeKind::Texture
    }
}

/// How a sampler resolves texture coordinates outside `[0, 1]`.
#[derive(Clone, Copy, PartialEq, Eq, Structural, Debug)]
pub enum GraphicsAddressMode {
    Clamp,
    Wrap,
    Mirror,
    Border,
    MirrorOnce,
}

/// The sampler's filtering mode.
#[derive(Clone, Copy, PartialEq, Eq, Structural, Debug)]
pub enum GraphicsSampleFilter {
    Point,
    Linear,
    Anisotropic,
    MinMagPointMipLinear,
    MinPointMagLinearMipPoint,
    MinPointMagMipLinear,
    MinLinearMapMipPoint,
    MinLinearMagPointMipLinear,
    MinMagLinearMipPoint,
}

/// Whether a filter render may draw straight to the target.
#[derive(Clone, Copy, PartialEq, Eq, Structural, Debug)]
pub enum GraphicsAllowDirectRendering {
    NoDirectRendering,
    AllowDirectRendering,
}

} // verus!
