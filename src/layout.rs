//! Binary layout of the per-blade instance record as the render stage reads
//! it: twelve tightly packed 32-bit floats, the last one padding.
//!
//! | offset | field      | location | format    |
//! |--------|------------|----------|-----------|
//! | 0      | position   | 1        | 3 floats  |
//! | 12     | wind_sway  | 2        | float     |
//! | 16     | height     | 3        | float     |
//! | 20     | width      | 4        | float     |
//! | 24     | bend       | 5        | float     |
//! | 28     | tilt       | 6        | float     |
//! | 32     | facing     | 7        | 2 floats  |
//! | 40     | blade_hash | 8        | float     |
//! | 44     | padding    | -        | -         |
use vstd::prelude::*;

verus! {

/// Bytes from one instance record to the next.
pub const INSTANCE_STRIDE: u64 = 48;

/// Bytes of trailing padding at the end of a record.
pub const INSTANCE_PADDING: u64 = 4;

/// Shader location of the blade mesh's own vertex position; the instance
/// attributes take the locations after it.
pub const MESH_POSITION_LOCATION: u32 = 0;

/// Vertex formats used by the instance record.
#[derive(Clone, Copy, Debug, PartialEq, Eq, Structural)]
pub enum AttributeFormat {
    Float32,
    Float32x2,
    Float32x3,
}

impl AttributeFormat {
    pub open spec fn size_spec(self) -> nat {
        match self {
            AttributeFormat::Float32 => 4,
            AttributeFormat::Float32x2 => 8,
            AttributeFormat::Float32x3 => 12,
        }
    }

    /// Size in bytes of one value of this format.
    pub fn size(&self) -> (r: u64)
        ensures
            r == self.size_spec(),
    {
        match self {
            AttributeFormat::Float32 => 4,
            AttributeFormat::Float32x2 => 8,
            AttributeFormat::Float32x3 => 12,
        }
    }
}

/// One per-instance vertex attribute: where it sits in the record, which
/// shader input receives it, and its format.
#[derive(Clone, Copy, Debug, PartialEq, Eq, Structural)]
pub struct InstanceAttribute {
    pub offset: u64,
    pub shader_location: u32,
    pub format: AttributeFormat,
}

/// Shorthand for one row of the attribute table.
pub open spec fn attr(offset: u64, shader_location: u32, format: AttributeFormat) -> InstanceAttribute {
    InstanceAttribute { offset, shader_location, format }
}

/// The attribute table of the instance record.
pub open spec fn instance_attributes_spec() -> Seq<InstanceAttribute> {
    seq![
        attr(0, 1, AttributeFormat::Float32x3),
        attr(12, 2, AttributeFormat::Float32),
        attr(16, 3, AttributeFormat::Float32),
        attr(20, 4, AttributeFormat::Float32),
        attr(24, 5, AttributeFormat::Float32),
        attr(28, 6, AttributeFormat::Float32),
        attr(32, 7, AttributeFormat::Float32x2),
        attr(40, 8, AttributeFormat::Float32),
    ]
}

/// Attribute table of the instance record, in field order.
pub fn instance_attributes() -> (r: Vec<InstanceAttribute>)
    ensures
        r@ == instance_attributes_spec(),
{
    let r = vec![
        InstanceAttribute { offset: 0, shader_location: 1, format: AttributeFormat::Float32x3 },
        InstanceAttribute { offset: 12, shader_location: 2, format: AttributeFormat::Float32 },
        InstanceAttribute { offset: 16, shader_location: 3, format: AttributeFormat::Float32 },
        InstanceAttribute { offset: 20, shader_location: 4, format: AttributeFormat::Float32 },
        InstanceAttribute { offset: 24, shader_location: 5, format: AttributeFormat::Float32 },
        InstanceAttribute { offset: 28, shader_location: 6, format: AttributeFormat::Float32 },
        InstanceAttribute { offset: 32, shader_location: 7, format: AttributeFormat::Float32x2 },
        InstanceAttribute { offset: 40, shader_location: 8, format: AttributeFormat::Float32 },
    ];
    assert(r@ =~= instance_attributes_spec());
    r
}

/// The instance record is tightly packed: the first attribute starts at
/// offset zero, each one starts where the previous one ends, and the last
/// one plus the padding fills the stride exactly. The shader locations run
/// upwards from just after the mesh's own position input, so no two
/// attributes share one and none collides with the mesh.
pub proof fn lemma_instance_layout_packed()
    ensures
        instance_attributes_spec().len() == 8,
        instance_attributes_spec()[0].offset == 0,
        forall|i: int|
            0 <= i < instance_attributes_spec().len() - 1 ==> (#[trigger] instance_attributes_spec()[i
                + 1]).offset == instance_attributes_spec()[i].offset
                + instance_attributes_spec()[i].format.size_spec(),
        instance_attributes_spec()[7].offset + instance_attributes_spec()[7].format.size_spec()
            + INSTANCE_PADDING == INSTANCE_STRIDE,
        forall|i: int|
            0 <= i < instance_attributes_spec().len() ==> (#[trigger] instance_attributes_spec()[i]).shader_location
                == MESH_POSITION_LOCATION + 1 + i,
{
    let a = instance_attributes_spec();
    assert(a[0].offset == 0 && a[0].shader_location == 1);
    assert(a[1].offset == 12 && a[1].shader_location == 2);
    assert(a[2].offset == 16 && a[2].shader_location == 3);
    assert(a[3].offset == 20 && a[3].shader_location == 4);
    assert(a[4].offset == 24 && a[4].shader_location == 5);
    assert(a[5].offset == 28 && a[5].shader_location == 6);
    assert(a[6].offset == 32 && a[6].shader_location == 7);
    assert(a[7].offset == 40 && a[7].shader_location == 8);
}

} // verus!
