//! The catalog of built-in composite types.

use crate::kinds::VariantType;
use vstd::prelude::*;

verus! {

/// A built-in composite value type of the host: a vector, a matrix, a colour
/// and the like, or a packed array of primitives.
#[derive(Clone, Copy, Debug, PartialEq, Eq, Hash, PartialOrd, Ord, Structural)]
pub enum VariantDefinition {
    Vector2,
    Vector2i,
    Rect2,
    Rect2i,
    Vector3,
    Vector3i,
    Transform2D,
    Vector4,
    Vector4i,
    Plane,
    Quaternion,
    Aabb,
    Basis,
    Transform3D,
    Projection,
    Color,
    Rid,
    PackedByteArray,
    PackedInt32Array,
    PackedInt64Array,
    PackedFloat32Array,
    PackedFloat64Array,
    PackedStringArray,
    PackedVector2Array,
    PackedVector3Array,
    PackedColorArray,
    PackedVector4Array,
}

impl VariantDefinition {
    /// The canonical schema name of the type.
    pub open spec fn spec_name(&self) -> Seq<char> {
        match *self {
            VariantDefinition::Vector2 => "Vector2"@,
            VariantDefinition::Vector2i => "Vector2i"@,
            VariantDefinition::Rect2 => "Rect2"@,
            VariantDefinition::Rect2i => "Rect2i"@,
            VariantDefinition::Vector3 => "Vector3"@,
            VariantDefinition::Vector3i => "Vector3i"@,
            VariantDefinition::Transform2D => "Transform2D"@,
            VariantDefinition::Vector4 => "Vector4"@,
            VariantDefinition::Vector4i => "Vector4i"@,
            VariantDefinition::Plane => "Plane"@,
            VariantDefinition::Quaternion => "Quaternion"@,
            VariantDefinition::Aabb => "Aabb"@,
            VariantDefinition::Basis => "Basis"@,
            VariantDefinition::Transform3D => "Transform3D"@,
            VariantDefinition::Projection => "Projection"@,
            VariantDefinition::Color => "Color"@,
            VariantDefinition::Rid => "Rid"@,
            VariantDefinition::PackedByteArray => "PackedByteArray"@,
            VariantDefinition::PackedInt32Array => "PackedInt32Array"@,
            VariantDefinition::PackedInt64Array => "PackedInt64Array"@,
            VariantDefinition::PackedFloat32Array => "PackedFloat32Array"@,
            VariantDefinition::PackedFloat64Array => "PackedFloat64Array"@,
            VariantDefinition::PackedStringArray => "PackedStringArray"@,
            VariantDefinition::PackedVector2Array => "PackedVector2Array"@,
            VariantDefinition::PackedVector3Array => "PackedVector3Array"@,
            VariantDefinition::PackedColorArray => "PackedColorArray"@,
            VariantDefinition::PackedVector4Array => "PackedVector4Array"@,
        }
    }

    /// The kind of the host's values of the type.
    pub open spec fn spec_variant_type(&self) -> VariantType {
        match *self {
            VariantDefinition::Vector2 => VariantType::Vector2,
            VariantDefinition::Vector2i => VariantType::Vector2i,
            VariantDefinition::Rect2 => VariantType::Rect2,
            VariantDefinition::Rect2i => VariantType::Rect2i,
            VariantDefinition::Vector3 => VariantType::Vector3,
            VariantDefinition::Vector3i => VariantType::Vector3i,
            VariantDefinition::Transform2D => VariantType::Transform2D,
            VariantDefinition::Vector4 => VariantType::Vector4,
            VariantDefinition::Vector4i => VariantType::Vector4i,
            VariantDefinition::Plane => VariantType::Plane,
            VariantDefinition::Quaternion => VariantType::Quaternion,
            VariantDefinition::Aabb => VariantType::Aabb,
            VariantDefinition::Basis => VariantType::Basis,
            VariantDefinition::Transform3D => VariantType::Transform3D,
            VariantDefinition::Projection => VariantType::Projection,
            VariantDefinition::Color => VariantType::Color,
            VariantDefinition::Rid => VariantType::Rid,
            VariantDefinition::PackedByteArray => VariantType::PackedByteArray,
            VariantDefinition::PackedInt32Array => VariantType::PackedInt32Array,
            VariantDefinition::PackedInt64Array => VariantType::PackedInt64Array,
            VariantDefinition::PackedFloat32Array => VariantType::PackedFloat32Array,
            VariantDefinition::PackedFloat64Array => VariantType::PackedFloat64Array,
            VariantDefinition::PackedStringArray => VariantType::PackedStringArray,
            VariantDefinition::PackedVector2Array => VariantType::PackedVector2Array,
            VariantDefinition::PackedVector3Array => VariantType::PackedVector3Array,
            VariantDefinition::PackedColorArray => VariantType::PackedColorArray,
            VariantDefinition::PackedVector4Array => VariantType::PackedVector4Array,
        }
    }

    /// The catalog entry whose values have the kind `value`, if there is one.
    pub open spec fn spec_try_from(value: VariantType) -> Option<VariantDefinition> {
        match value {
            VariantType::Vector2 => Some(VariantDefinition::Vector2),
            VariantType::Vector2i => Some(VariantDefinition::Vector2i),
            VariantType::Rect2 => Some(VariantDefinition::Rect2),
            VariantType::Rect2i => Some(VariantDefinition::Rect2i),
            VariantType::Vector3 => Some(VariantDefinition::Vector3),
            VariantType::Vector3i => Some(VariantDefinition::Vector3i),
            VariantType::Transform2D => Some(VariantDefinition::Transform2D),
            VariantType::Vector4 => Some(VariantDefinition::Vector4),
            VariantType::Vector4i => Some(VariantDefinition::Vector4i),
            VariantType::Plane => Some(VariantDefinition::Plane),
            VariantType::Quaternion => Some(VariantDefinition::Quaternion),
            VariantType::Aabb => Some(VariantDefinition::Aabb),
            VariantType::Basis => Some(VariantDefinition::Basis),
            VariantType::Transform3D => Some(VariantDefinition::Transform3D),
            VariantType::Projection => Some(VariantDefinition::Projection),
            VariantType::Color => Some(VariantDefinition::Color),
            VariantType::Rid => Some(VariantDefinition::Rid),
            VariantType::PackedByteArray => Some(VariantDefinition::PackedByteArray),
            VariantType::PackedInt32Array => Some(VariantDefinition::PackedInt32Array),
            VariantType::PackedInt64Array => Some(VariantDefinition::PackedInt64Array),
            VariantType::PackedFloat32Array => Some(VariantDefinition::PackedFloat32Array),
            VariantType::PackedFloat64Array => Some(VariantDefinition::PackedFloat64Array),
            VariantType::PackedStringArray => Some(VariantDefinition::PackedStringArray),
            VariantType::PackedVector2Array => Some(VariantDefinition::PackedVector2Array),
            VariantType::PackedVector3Array => Some(VariantDefinition::PackedVector3Array),
            VariantType::PackedColorArray => Some(VariantDefinition::PackedColorArray),
            VariantType::PackedVector4Array => Some(VariantDefinition::PackedVector4Array),
            _ => None,
        }
    }

    /// The other catalog entries that the structure of the type is made of.
    pub open spec fn spec_dependencies(&self) -> Seq<VariantDefinition> {
        match *self {
            VariantDefinition::Rect2
            | VariantDefinition::Transform2D
            | VariantDefinition::PackedVector2Array => seq![VariantDefinition::Vector2],
            VariantDefinition::Plane
            | VariantDefinition::Aabb
            | VariantDefinition::Basis
            | VariantDefinition::PackedVector3Array => seq![VariantDefinition::Vector3],
            VariantDefinition::Projection | VariantDefinition::PackedVector4Array => seq![
                VariantDefinition::Vector4,
            ],
            VariantDefinition::Rect2i => seq![VariantDefinition::Vector2i],
            VariantDefinition::PackedColorArray => seq![VariantDefinition::Color],
            VariantDefinition::Transform3D => seq![
                VariantDefinition::Vector3,
                VariantDefinition::Basis,
            ],
            _ => seq![],
        }
    }

    /// How many steps of dependency lie below the type. Every dependency of
    /// a type has a smaller rank: the catalog has no cycle.
    pub open spec fn rank(&self) -> nat {
        match *self {
            VariantDefinition::Transform3D => 2,
            VariantDefinition::Rect2
            | VariantDefinition::Transform2D
            | VariantDefinition::PackedVector2Array
            | VariantDefinition::Plane
            | VariantDefinition::Aabb
            | VariantDefinition::Basis
            | VariantDefinition::PackedVector3Array
            | VariantDefinition::Projection
            | VariantDefinition::PackedVector4Array
            | VariantDefinition::Rect2i
            | VariantDefinition::PackedColorArray => 1,
            _ => 0,
        }
    }

    /// The type with all that it depends on, directly or not: the type, then
    /// the same of each of its dependencies in turn.
    pub open spec fn closure(&self) -> Seq<VariantDefinition>
        decreases self.rank(), 1nat,
    {
        seq![*self] + Self::closure_of(self.spec_dependencies(), self.rank())
    }

    /// The closures of `list`, one after the other; every entry of `list`
    /// has a rank below `bound`.
    pub open spec fn closure_of(list: Seq<VariantDefinition>, bound: nat) -> Seq<VariantDefinition>
        decreases bound, 0nat, list.len(),
    {
        if list.len() == 0 {
            seq![]
        } else if list[0].rank() < bound {
            list[0].closure() + Self::closure_of(list.drop_first(), bound)
        } else {
            seq![]
        }
    }

    pub fn name(&self) -> (r: &'static str)
        ensures
            r@ == self.spec_name(),
    {
        match self {
            VariantDefinition::Vector2 => "Vector2",
            VariantDefinition::Vector2i => "Vector2i",
            VariantDefinition::Rect2 => "Rect2",
            VariantDefinition::Rect2i => "Rect2i",
            VariantDefinition::Vector3 => "Vector3",
            VariantDefinition::Vector3i => "Vector3i",
            VariantDefinition::Transform2D => "Transform2D",
            VariantDefinition::Vector4 => "Vector4",
            VariantDefinition::Vector4i => "Vector4i",
            VariantDefinition::Plane => "Plane",
            VariantDefinition::Quaternion => "Quaternion",
            VariantDefinition::Aabb => "Aabb",
            VariantDefinition::Basis => "Basis",
            VariantDefinition::Transform3D => "Transform3D",
            VariantDefinition::Projection => "Projection",
            VariantDefinition::Color => "Color",
            VariantDefinition::Rid => "Rid",
            VariantDefinition::PackedByteArray => "PackedByteArray",
            VariantDefinition::PackedInt32Array => "PackedInt32Array",
            VariantDefinition::PackedInt64Array => "PackedInt64Array",
            VariantDefinition::PackedFloat32Array => "PackedFloat32Array",
            VariantDefinition::PackedFloat64Array => "PackedFloat64Array",
            VariantDefinition::PackedStringArray => "PackedStringArray",
            VariantDefinition::PackedVector2Array => "PackedVector2Array",
            VariantDefinition::PackedVector3Array => "PackedVector3Array",
            VariantDefinition::PackedColorArray => "PackedColorArray",
            VariantDefinition::PackedVector4Array => "PackedVector4Array",
        }
    }

    #[verifier::when_used_as_spec(spec_variant_type)]
    pub fn variant_type(&self) -> (r: VariantType)
        ensures
            r == self.spec_variant_type(),
    {
        match self {
            VariantDefinition::Vector2 => VariantType::Vector2,
            VariantDefinition::Vector2i => VariantType::Vector2i,
            VariantDefinition::Rect2 => VariantType::Rect2,
            VariantDefinition::Rect2i => VariantType::Rect2i,
            VariantDefinition::Vector3 => VariantType::Vector3,
            VariantDefinition::Vector3i => VariantType::Vector3i,
            VariantDefinition::Transform2D => VariantType::Transform2D,
            VariantDefinition::Vector4 => VariantType::Vector4,
            VariantDefinition::Vector4i => VariantType::Vector4i,
            VariantDefinition::Plane => VariantType::Plane,
            VariantDefinition::Quaternion => VariantType::Quaternion,
            VariantDefinition::Aabb => VariantType::Aabb,
            VariantDefinition::Basis => VariantType::Basis,
            VariantDefinition::Transform3D => VariantType::Transform3D,
            VariantDefinition::Projection => VariantType::Projection,
            VariantDefinition::Color => VariantType::Color,
            VariantDefinition::Rid => VariantType::Rid,
            VariantDefinition::PackedByteArray => VariantType::PackedByteArray,
            VariantDefinition::PackedInt32Array => VariantType::PackedInt32Array,
            VariantDefinition::PackedInt64Array => VariantType::PackedInt64Array,
            VariantDefinition::PackedFloat32Array => VariantType::PackedFloat32Array,
            VariantDefinition::PackedFloat64Array => VariantType::PackedFloat64Array,
            VariantDefinition::PackedStringArray => VariantType::PackedStringArray,
            VariantDefinition::PackedVector2Array => VariantType::PackedVector2Array,
            VariantDefinition::PackedVector3Array => VariantType::PackedVector3Array,
            VariantDefinition::PackedColorArray => VariantType::PackedColorArray,
            VariantDefinition::PackedVector4Array => VariantType::PackedVector4Array,
        }
    }

    /// The catalog entry whose values have the kind `value`: `Err` for a kind
    /// that is no built-in composite.
    pub fn try_from(value: VariantType) -> (r: Result<VariantDefinition, ()>)
        ensures
            match Self::spec_try_from(value) {
                Some(tag) => r == Ok::<VariantDefinition, ()>(tag),
                None => r is Err,
            },
            r matches Ok(tag) ==> tag.spec_variant_type() == value,
    {
        match value {
            VariantType::Vector2 => Ok(VariantDefinition::Vector2),
            VariantType::Vector2i => Ok(VariantDefinition::Vector2i),
            VariantType::Rect2 => Ok(VariantDefinition::Rect2),
            VariantType::Rect2i => Ok(VariantDefinition::Rect2i),
            VariantType::Vector3 => Ok(VariantDefinition::Vector3),
            VariantType::Vector3i => Ok(VariantDefinition::Vector3i),
            VariantType::Transform2D => Ok(VariantDefinition::Transform2D),
            VariantType::Vector4 => Ok(VariantDefinition::Vector4),
            VariantType::Vector4i => Ok(VariantDefinition::Vector4i),
            VariantType::Plane => Ok(VariantDefinition::Plane),
            VariantType::Quaternion => Ok(VariantDefinition::Quaternion),
            VariantType::Aabb => Ok(VariantDefinition::Aabb),
            VariantType::Basis => Ok(VariantDefinition::Basis),
            VariantType::Transform3D => Ok(VariantDefinition::Transform3D),
            VariantType::Projection => Ok(VariantDefinition::Projection),
            VariantType::Color => Ok(VariantDefinition::Color),
            VariantType::PackedByteArray => Ok(VariantDefinition::PackedByteArray),
            VariantType::PackedInt32Array => Ok(VariantDefinition::PackedInt32Array),
            VariantType::PackedInt64Array => Ok(VariantDefinition::PackedInt64Array),
            VariantType::PackedFloat32Array => Ok(VariantDefinition::PackedFloat32Array),
            VariantType::PackedFloat64Array => Ok(VariantDefinition::PackedFloat64Array),
            VariantType::PackedStringArray => Ok(VariantDefinition::PackedStringArray),
            VariantType::PackedVector2Array => Ok(VariantDefinition::PackedVector2Array),
            VariantType::PackedVector3Array => Ok(VariantDefinition::PackedVector3Array),
            VariantType::PackedColorArray => Ok(VariantDefinition::PackedColorArray),
            VariantType::PackedVector4Array => Ok(VariantDefinition::PackedVector4Array),
            VariantType::Rid => Ok(VariantDefinition::Rid),
            _ => Err(()),
        }
    }

    /// A built-in composite type carries no description.
    pub fn description(&self) -> (r: Option<&String>)
        ensures
            r is None,
    {
        None
    }

    /// A built-in composite type takes no description: the type stays as
    /// it is.
    pub fn add_description(&mut self, description: &str)
        ensures
            *final(self) == *old(self),
    {
    }

    /// The direct dependencies of the type, in catalog order.
    pub fn dependencies(&self) -> (r: Vec<VariantDefinition>)
        ensures
            r@ == self.spec_dependencies(),
            forall|i: int| 0 <= i < r@.len() ==> (#[trigger] r@[i]).rank() < self.rank(),
    {
        let mut list: Vec<VariantDefinition> = Vec::new();
        match self {
            VariantDefinition::Rect2
            | VariantDefinition::Transform2D
            | VariantDefinition::PackedVector2Array => list.push(VariantDefinition::Vector2),
            VariantDefinition::Plane
            | VariantDefinition::Aabb
            | VariantDefinition::Basis
            | VariantDefinition::PackedVector3Array => list.push(VariantDefinition::Vector3),
            VariantDefinition::Projection | VariantDefinition::PackedVector4Array => list.push(
                VariantDefinition::Vector4,
            ),
            VariantDefinition::Rect2i => list.push(VariantDefinition::Vector2i),
            VariantDefinition::PackedColorArray => list.push(VariantDefinition::Color),
            VariantDefinition::Transform3D => {
                list.push(VariantDefinition::Vector3);
                list.push(VariantDefinition::Basis);
            },
            _ => {},
        }
        assert(list@ =~= self.spec_dependencies());
        list
    }

    /// Appends the type to `fill_me`, then all that it depends on, directly
    /// or not.
    pub fn insert_variant_definitions(&self, fill_me: &mut Vec<VariantDefinition>)
        ensures
            final(fill_me)@ == old(fill_me)@ + self.closure(),
        decreases self.rank(),
    {
        fill_me.push(*self);
        let deps = self.dependencies();
        let mut i: usize = 0;
        let ghost start = fill_me@;
        assert(deps@.skip(0) =~= deps@);
        while i < deps.len()
            invariant
                i <= deps.len(),
                deps@ == self.spec_dependencies(),
                forall|k: int| 0 <= k < deps@.len() ==> (#[trigger] deps@[k]).rank() < self.rank(),
                fill_me@ + Self::closure_of(deps@.skip(i as int), self.rank()) == start
                    + Self::closure_of(deps@, self.rank()),
            decreases deps.len() - i,
        {
            let ghost rest = deps@.skip(i as int);
            assert(rest[0] == deps@[i as int]);
            assert(rest.drop_first() =~= deps@.skip(i + 1));
            let ghost before = fill_me@;
            deps[i].insert_variant_definitions(fill_me);
            assert(fill_me@ + Self::closure_of(deps@.skip(i + 1), self.rank()) =~= before
                + Self::closure_of(rest, self.rank()));
            i += 1;
        }
        assert(deps@.skip(deps@.len() as int) =~= seq![]);
        assert(fill_me@ =~= old(fill_me)@ + self.closure()) by {
            assert(start =~= old(fill_me)@ + seq![*self]);
            assert(deps@.skip(0) =~= deps@);
        }
    }
}

} // verus!
