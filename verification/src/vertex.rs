//! The fixed mesh-vertex record and its GPU vertex-buffer layout: position,
//! texture coordinates, normal, tangent and color, tightly packed in that
//! order, 64 bytes per vertex.

use vstd::prelude::*;

verus! {

/// The component count of one vertex attribute (all components are 32-bit
/// floats on the GPU side).
#[derive(Clone, Copy, Debug, PartialEq, Eq, Structural)]
pub enum VertexFormat {
    Float2,
    Float3,
    Float4,
}

/// One attribute of a vertex-buffer layout.
#[derive(Clone, Copy, Debug, PartialEq, Eq, Structural)]
pub struct VertexAttribute {
    pub format: VertexFormat,
    pub offset: u64,
    pub shader_location: u32,
}

/// A vertex-buffer layout: the stride between vertices and the attributes
/// inside one vertex.
#[derive(Clone, Debug)]
pub struct VertexBufferLayout {
    pub array_stride: u64,
    pub attributes: Vec<VertexAttribute>,
}

/// The attributes of the fixed mesh-vertex record: position (3 floats at
/// offset 0), texture coordinates (2 at 12), normal (3 at 20), tangent
/// (4 at 32) and color (4 at 48).
pub open spec fn spec_mesh_vertex_attributes() -> Seq<VertexAttribute> {
    seq![
        VertexAttribute { format: VertexFormat::Float3, offset: 0, shader_location: 0 },
        VertexAttribute { format: VertexFormat::Float2, offset: 12, shader_location: 1 },
        VertexAttribute { format: VertexFormat::Float3, offset: 20, shader_location: 2 },
        VertexAttribute { format: VertexFormat::Float4, offset: 32, shader_location: 3 },
        VertexAttribute { format: VertexFormat::Float4, offset: 48, shader_location: 4 },
    ]
}

/// Whether a layout is the fixed mesh-vertex layout: 64-byte stride and the
/// five attributes at their packed offsets.
pub open spec fn spec_is_mesh_vertex_layout(l: VertexBufferLayout) -> bool {
    l.array_stride == 64 && l.attributes@ == spec_mesh_vertex_attributes()
}

/// The vertex-buffer layout of the fixed mesh-vertex record.
pub fn mesh_vertex_layout() -> (r: VertexBufferLayout)
    ensures
        spec_is_mesh_vertex_layout(r),
{
    let mut attributes: Vec<VertexAttribute> = Vec::new();
    attributes.push(VertexAttribute { format: VertexFormat::Float3, offset: 0, shader_location: 0 });
    attributes.push(
        VertexAttribute { format: VertexFormat::Float2, offset: 12, shader_location: 1 },
    );
    attributes.push(
        VertexAttribute { format: VertexFormat::Float3, offset: 20, shader_location: 2 },
    );
    attributes.push(
        VertexAttribute { format: VertexFormat::Float4, offset: 32, shader_location: 3 },
    );
    attributes.push(
        VertexAttribute { format: VertexFormat::Float4, offset: 48, shader_location: 4 },
    );
    proof {
        assert(attributes@ =~= spec_mesh_vertex_attributes());
    }
    VertexBufferLayout { array_stride: 64, attributes }
}

} // verus!
