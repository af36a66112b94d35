//! Render-pipeline descriptions as plain data: the bind-group slot order,
//! vertex input, color target, primitive and depth-stencil state that a GPU
//! device needs to create the actual pipeline object.

use vstd::prelude::*;

use crate::state::BlendState;
use crate::state::ColorWriteMask;
use crate::state::CompareFunction;
use crate::state::CullMode;
use crate::state::FrontFace;
use crate::state::StencilState;
use crate::state::SubShaderOption;
use crate::texture::TextureFormat;
use crate::vertex::VertexBufferLayout;

verus! {

/// The externally owned bind-group layouts a pipeline layout can reference,
/// in slot order.
#[derive(Clone, Copy, Debug, PartialEq, Eq, Structural)]
pub enum PipelineBindGroupSlot {
    ShaderSpecific,
    Object,
    Camera,
    Light,
    Scene,
    Blit,
    EnvMapPreCalc,
}

/// How vertices are assembled into primitives (this renderer always draws
/// triangle lists).
#[derive(Clone, Copy, Debug, PartialEq, Eq, Structural)]
pub enum PrimitiveTopology {
    TriangleList,
}

/// Primitive assembly and rasterization state.
#[derive(Clone, Copy, Debug, PartialEq, Eq, Structural)]
pub struct PrimitiveState {
    pub topology: PrimitiveTopology,
    pub front_face: FrontFace,
    pub cull_mode: CullMode,
}

/// The color attachment a pipeline writes: its format, blend equations and
/// channel mask.
#[derive(Clone, Copy, Debug, PartialEq, Eq, Structural)]
pub struct ColorTargetState {
    pub format: TextureFormat,
    pub color_blend: BlendState,
    pub alpha_blend: BlendState,
    pub write_mask: ColorWriteMask,
}

/// The depth-stencil attachment state of a pipeline.
#[derive(Clone, Copy, Debug, PartialEq, Eq, Structural)]
pub struct DepthStencilState {
    pub format: TextureFormat,
    pub depth_write_enabled: bool,
    pub depth_compare: CompareFunction,
    pub stencil: StencilState,
}

/// A complete render-pipeline description: everything the GPU device needs
/// beyond the compiled shader modules themselves.
#[derive(Clone, Debug)]
pub struct RenderPipelineDesc {
    pub bind_group_slots: Vec<PipelineBindGroupSlot>,
    pub vertex_buffers: Vec<VertexBufferLayout>,
    pub color_target: ColorTargetState,
    pub primitive: PrimitiveState,
    pub depth_stencil: Option<DepthStencilState>,
    pub sample_count: u32,
}

/// Whether `d` is the pipeline description derived from a sub-shader's
/// fixed-function state for the standard forward pass: the four-slot layout
/// (shader-specific, object, camera, light), the fixed mesh-vertex input,
/// the pass's blend/cull/depth/stencil state, and single-sample output.
pub open spec fn spec_forward_pipeline_ok(
    d: RenderPipelineDesc,
    options: SubShaderOption,
    color_format: TextureFormat,
    depth_stencil_format: TextureFormat,
) -> bool {
    &&& d.bind_group_slots@ == seq![
        PipelineBindGroupSlot::ShaderSpecific,
        PipelineBindGroupSlot::Object,
        PipelineBindGroupSlot::Camera,
        PipelineBindGroupSlot::Light,
    ]
    &&& d.vertex_buffers@.len() == 1
    &&& crate::vertex::spec_is_mesh_vertex_layout(d.vertex_buffers@[0])
    &&& d.color_target == (ColorTargetState {
        format: color_format,
        color_blend: options.color_blend,
        alpha_blend: options.alpha_blend,
        write_mask: options.write_mask,
    })
    &&& d.primitive == (PrimitiveState {
        topology: PrimitiveTopology::TriangleList,
        front_face: options.front_face,
        cull_mode: options.cull_mode,
    })
    &&& d.depth_stencil == Some(
        DepthStencilState {
            format: depth_stencil_format,
            depth_write_enabled: options.depth_write,
            depth_compare: options.depth_compare,
            stencil: options.stencil,
        },
    )
    &&& d.sample_count == 1
}

} // verus!
