//! The type registry: marker types for the semantic value types of the
//! kernel language, each mapped to its WGSL type name.
//!
//! Verified code never holds a value of the scalar float type; the markers
//! only tag `Expression`s, so that ill-typed compositions are rejected when
//! the generator is compiled.

use vstd::prelude::*;

verus! {

/// The scalar 32-bit float type of the kernel language.
pub struct FloatScalar;

/// The scalar 32-bit signed integer type of the kernel language.
pub struct IntScalar;

/// The scalar 32-bit unsigned integer type of the kernel language.
pub struct UintScalar;

/// A two-component float vector.
pub struct FloatVec2;

/// A three-component float vector.
pub struct FloatVec3;

/// A four-component float vector.
pub struct FloatVec4;

/// A two-component unsigned-integer vector.
pub struct UintVec2;

/// A three-component unsigned-integer vector.
pub struct UintVec3;

/// A four-component unsigned-integer vector.
pub struct UintVec4;

/// A two-component signed-integer vector.
pub struct IntVec2;

/// The scalar boolean type of the kernel language.
pub struct BoolScalar;

/// A semantic value type of the kernel language, with its WGSL type name.
pub trait ShaderTypeExt {
    /// The WGSL spelling of this type's name.
    spec fn spec_type_name() -> Seq<char>;

    /// Renders the WGSL type name.
    fn wgsl_type_name() -> (r: String)
        ensures
            r@ == Self::spec_type_name(),
    ;
}

impl ShaderTypeExt for FloatScalar {
    open spec fn spec_type_name() -> Seq<char> {
        "f32"@
    }

    fn wgsl_type_name() -> (r: String) {
        String::from_str("f32")
    }
}

impl ShaderTypeExt for IntScalar {
    open spec fn spec_type_name() -> Seq<char> {
        "i32"@
    }

    fn wgsl_type_name() -> (r: String) {
        String::from_str("i32")
    }
}

impl ShaderTypeExt for UintScalar {
    open spec fn spec_type_name() -> Seq<char> {
        "u32"@
    }

    fn wgsl_type_name() -> (r: String) {
        String::from_str("u32")
    }
}

impl ShaderTypeExt for FloatVec2 {
    open spec fn spec_type_name() -> Seq<char> {
        "vec2<f32>"@
    }

    fn wgsl_type_name() -> (r: String) {
        String::from_str("vec2<f32>")
    }
}

impl ShaderTypeExt for FloatVec3 {
    open spec fn spec_type_name() -> Seq<char> {
        "vec3<f32>"@
    }

    fn wgsl_type_name() -> (r: String) {
        String::from_str("vec3<f32>")
    }
}

impl ShaderTypeExt for FloatVec4 {
    open spec fn spec_type_name() -> Seq<char> {
        "vec4<f32>"@
    }

    fn wgsl_type_name() -> (r: String) {
        String::from_str("vec4<f32>")
    }
}

impl ShaderTypeExt for UintVec2 {
    open spec fn spec_type_name() -> Seq<char> {
        "vec2<u32>"@
    }

    fn wgsl_type_name() -> (r: String) {
        String::from_str("vec2<u32>")
    }
}

impl ShaderTypeExt for UintVec3 {
    open spec fn spec_type_name() -> Seq<char> {
        "vec3<u32>"@
    }

    fn wgsl_type_name() -> (r: String) {
        String::from_str("vec3<u32>")
    }
}

impl ShaderTypeExt for UintVec4 {
    open spec fn spec_type_name() -> Seq<char> {
        "vec4<u32>"@
    }

    fn wgsl_type_name() -> (r: String) {
        String::from_str("vec4<u32>")
    }
}

impl ShaderTypeExt for BoolScalar {
    open spec fn spec_type_name() -> Seq<char> {
        "bool"@
    }

    fn wgsl_type_name() -> (r: String) {
        String::from_str("bool")
    }
}

impl ShaderTypeExt for IntVec2 {
    open spec fn spec_type_name() -> Seq<char> {
        "vec2<i32>"@
    }

    fn wgsl_type_name() -> (r: String) {
        String::from_str("vec2<i32>")
    }
}

} // verus!
