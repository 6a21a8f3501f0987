//! The coarse value kinds of the host runtime, and the hints and usage flags
//! that its property descriptors carry beside them.

use vstd::prelude::*;

verus! {

/// The coarse kind of a value of the host runtime.
#[derive(Clone, Copy, Debug, PartialEq, Eq, Hash, Structural)]
pub enum VariantType {
    Nil,
    Bool,
    Int,
    Float,
    String,
    Vector2,
    Vector2i,
    Rect2,
    Rect2i,
    Vector3,
    Vector3i,
    Transform2D,
    Vector4,
    Vector4i,
    Plane,
    Quaternion,
    Aabb,
    Basis,
    Transform3D,
    Projection,
    Color,
    StringName,
    NodePath,
    Rid,
    Object,
    Callable,
    Signal,
    Dictionary,
    Array,
    PackedByteArray,
    PackedInt32Array,
    PackedInt64Array,
    PackedFloat32Array,
    PackedFloat64Array,
    PackedStringArray,
    PackedVector2Array,
    PackedVector3Array,
    PackedColorArray,
    PackedVector4Array,
}

/// How the hint payload of a property descriptor is to be read.
#[derive(Clone, Copy, Debug, PartialEq, Eq, Hash, Structural)]
pub enum PropertyHint {
    /// The descriptor carries no hint.
    NoHint,
    /// The payload names the element type of an array.
    ArrayType,
    /// A hint that plays no part in resolving a type.
    Other,
}

/// The usage flag set of a property descriptor.
#[derive(Clone, Copy, Debug, PartialEq, Eq, Hash, Structural)]
pub struct PropertyUsageFlags {
    pub bits: u64,
}

/// The flag that marks an integer property as an enum.
pub const CLASS_IS_ENUM: u64 = 0x1_0000;

impl PropertyUsageFlags {
    /// All bits of `mask` are set.
    pub open spec fn spec_is_set(&self, mask: u64) -> bool {
        self.bits & mask == mask
    }

    /// The property is an enum of a class.
    pub open spec fn spec_is_enum(&self) -> bool {
        self.spec_is_set(CLASS_IS_ENUM)
    }

    /// The empty flag set.
    pub fn empty() -> (r: PropertyUsageFlags)
        ensures
            r.bits == 0,
    {
        PropertyUsageFlags { bits: 0 }
    }

    /// The flag set with exactly the bits of `bits`.
    pub fn from_bits(bits: u64) -> (r: PropertyUsageFlags)
        ensures
            r.bits == bits,
    {
        PropertyUsageFlags { bits }
    }

    #[verifier::when_used_as_spec(spec_is_set)]
    pub fn is_set(&self, mask: u64) -> (r: bool)
        ensures
            r == self.spec_is_set(mask),
    {
        self.bits & mask == mask
    }

    #[verifier::when_used_as_spec(spec_is_enum)]
    pub fn is_enum(&self) -> (r: bool)
        ensures
            r == self.spec_is_enum(),
    {
        self.is_set(CLASS_IS_ENUM)
    }
}

} // verus!
