//! The values that can be handed to a program, and the handles that stand for
//! resources owned elsewhere.

use vstd::prelude::*;

verus! {

/// A 32-bit floating-point number, held as its IEEE-754 bit pattern.
///
/// This layer stores and forwards such numbers and never computes with them.
/// Two of them are equal when their bits are.
#[derive(Clone, Copy, PartialEq, Eq, Debug)]
pub struct Float32 {
    bits: u32,
}

impl Float32 {
    /// The number with the given bit pattern.
    pub fn from_bits(bits: u32) -> (number: Float32)
        ensures
            number.bits() == bits,
    {
        Float32 { bits }
    }

    /// The bit pattern of the number.
    pub fn to_bits(self) -> (bits: u32)
        ensures
            bits == self.bits(),
    {
        self.bits
    }

    /// The bit pattern of the number.
    pub closed spec fn bits(self) -> u32 {
        self.bits
    }
}

/// A value that can be uploaded to a uniform variable.
#[derive(Clone, Copy, PartialEq, Eq, Debug)]
pub enum UniformValue {
    /// A 32-bit integer.
    ValueI32(i32),
    /// A 32-bit floating-point number.
    ValueF32(Float32),
    /// Two integers.
    ValueI32Vector2([i32; 2]),
    /// Three integers.
    ValueI32Vector3([i32; 3]),
    /// Four integers.
    ValueI32Vector4([i32; 4]),
    /// Two floating-point numbers.
    ValueF32Vector2([Float32; 2]),
    /// Three floating-point numbers.
    ValueF32Vector3([Float32; 3]),
    /// Four floating-point numbers.
    ValueF32Vector4([Float32; 4]),
    /// A 2x2 floating-point matrix.
    ValueF32Matrix2([[Float32; 2]; 2]),
    /// A 3x3 floating-point matrix.
    ValueF32Matrix3([[Float32; 3]; 3]),
    /// A 4x4 floating-point matrix.
    ValueF32Matrix4([[Float32; 4]; 4]),
}

/// Handle of a raw buffer: the name under which the device knows it.
#[derive(Clone, Copy, PartialEq, Eq, Debug)]
pub struct RawBufferHandle(pub u32);

/// Handle of a texture.
#[derive(Clone, Copy, PartialEq, Eq, Debug)]
pub struct TextureHandle(pub u32);

/// Handle of a sampler.
#[derive(Clone, Copy, PartialEq, Eq, Debug)]
pub struct SamplerHandle(pub u32);

/// A texture parameter: consists of a texture handle with an optional sampler.
pub type TextureParam = (TextureHandle, Option<SamplerHandle>);

/// Helper trait to transform base types into their corresponding uniforms.
pub trait ToUniform {
    /// The uniform value that stands for this value.
    open spec fn uniform(&self) -> UniformValue {
        arbitrary()
    }

    /// Create a `UniformValue` representing this value.
    fn to_uniform(&self) -> (value: UniformValue)
        ensures
            value == self.uniform(),
    ;
}

impl ToUniform for i32 {
    open spec fn uniform(&self) -> UniformValue {
        UniformValue::ValueI32(*self)
    }

    fn to_uniform(&self) -> (value: UniformValue) {
        UniformValue::ValueI32(*self)
    }
}

impl ToUniform for Float32 {
    open spec fn uniform(&self) -> UniformValue {
        UniformValue::ValueF32(*self)
    }

    fn to_uniform(&self) -> (value: UniformValue) {
        UniformValue::ValueF32(*self)
    }
}

impl ToUniform for [i32; 2] {
    open spec fn uniform(&self) -> UniformValue {
        UniformValue::ValueI32Vector2(*self)
    }

    fn to_uniform(&self) -> (value: UniformValue) {
        UniformValue::ValueI32Vector2(*self)
    }
}

impl ToUniform for [i32; 3] {
    open spec fn uniform(&self) -> UniformValue {
        UniformValue::ValueI32Vector3(*self)
    }

    fn to_uniform(&self) -> (value: UniformValue) {
        UniformValue::ValueI32Vector3(*self)
    }
}

impl ToUniform for [i32; 4] {
    open spec fn uniform(&self) -> UniformValue {
        UniformValue::ValueI32Vector4(*self)
    }

    fn to_uniform(&self) -> (value: UniformValue) {
        UniformValue::ValueI32Vector4(*self)
    }
}

impl ToUniform for [Float32; 2] {
    open spec fn uniform(&self) -> UniformValue {
        UniformValue::ValueF32Vector2(*self)
    }

    fn to_uniform(&self) -> (value: UniformValue) {
        UniformValue::ValueF32Vector2(*self)
    }
}

impl ToUniform for [Float32; 3] {
    open spec fn uniform(&self) -> UniformValue {
        UniformValue::ValueF32Vector3(*self)
    }

    fn to_uniform(&self) -> (value: UniformValue) {
        UniformValue::ValueF32Vector3(*self)
    }
}

impl ToUniform for [Float32; 4] {
    open spec fn uniform(&self) -> UniformValue {
        UniformValue::ValueF32Vector4(*self)
    }

    fn to_uniform(&self) -> (value: UniformValue) {
        UniformValue::ValueF32Vector4(*self)
    }
}

impl ToUniform for [[Float32; 2]; 2] {
    open spec fn uniform(&self) -> UniformValue {
        UniformValue::ValueF32Matrix2(*self)
    }

    fn to_uniform(&self) -> (value: UniformValue) {
        UniformValue::ValueF32Matrix2(*self)
    }
}

impl ToUniform for [[Float32; 3]; 3] {
    open spec fn uniform(&self) -> UniformValue {
        UniformValue::ValueF32Matrix3(*self)
    }

    fn to_uniform(&self) -> (value: UniformValue) {
        UniformValue::ValueF32Matrix3(*self)
    }
}

impl ToUniform for [[Float32; 4]; 4] {
    open spec fn uniform(&self) -> UniformValue {
        UniformValue::ValueF32Matrix4(*self)
    }

    fn to_uniform(&self) -> (value: UniformValue) {
        UniformValue::ValueF32Matrix4(*self)
    }
}

} // verus!
