//! The renderer's built-in pipelines as plain descriptions: the mip-level
//! blit, the skybox background draw, and the environment-map convolution
//! passes (irradiance and specular prefilter share one description and
//! differ only in the fragment program the GPU collaborator compiles).

use vstd::prelude::*;

use crate::graphics::sampler_bind_group_entry;
use crate::graphics::texture_bind_group_entry;
use crate::graphics::uniform_bind_group_entry;
use crate::graphics::BindGroupLayoutEntry;
use crate::graphics::BindingType;
use crate::pipeline::ColorTargetState;
use crate::pipeline::DepthStencilState;
use crate::pipeline::PipelineBindGroupSlot;
use crate::pipeline::PrimitiveState;
use crate::pipeline::PrimitiveTopology;
use crate::pipeline::RenderPipelineDesc;
use crate::state::BlendState;
use crate::state::ColorWriteMask;
use crate::state::CompareFunction;
use crate::state::CullMode;
use crate::state::FrontFace;
use crate::state::StencilState;
use crate::texture::TextureFormat;
use crate::texture::TextureKind;
use crate::vertex::mesh_vertex_layout;
use crate::vertex::spec_is_mesh_vertex_layout;
use crate::vertex::VertexBufferLayout;

verus! {

/// The blit group: the source mip level's view at binding 0 and its sampler
/// at binding 1.
pub fn blit_bind_group_layout_entries() -> (r: Vec<BindGroupLayoutEntry>)
    ensures
        r@ =~= seq![
            BindGroupLayoutEntry {
                binding: 0,
                ty: BindingType::Texture { view_dimension: TextureKind::D2 },
            },
            BindGroupLayoutEntry { binding: 1, ty: BindingType::Sampler },
        ],
{
    let mut v: Vec<BindGroupLayoutEntry> = Vec::new();
    v.push(texture_bind_group_entry(0, TextureKind::D2));
    v.push(sampler_bind_group_entry(1));
    v
}

/// The environment precompute group: the source cubemap's view at binding
/// 0, its sampler at binding 1, and the per-draw roughness uniform at
/// binding 2.
pub fn envmap_bind_group_layout_entries() -> (r: Vec<BindGroupLayoutEntry>)
    ensures
        r@ =~= seq![
            BindGroupLayoutEntry {
                binding: 0,
                ty: BindingType::Texture { view_dimension: TextureKind::Cube },
            },
            BindGroupLayoutEntry { binding: 1, ty: BindingType::Sampler },
            BindGroupLayoutEntry { binding: 2, ty: BindingType::UniformBuffer },
        ],
{
    let mut v: Vec<BindGroupLayoutEntry> = Vec::new();
    v.push(texture_bind_group_entry(0, TextureKind::Cube));
    v.push(sampler_bind_group_entry(1));
    v.push(uniform_bind_group_entry(2));
    v
}

/// The scene environment group layout matching the fixed slot order of the
/// environment bindings: cube view/sampler pairs for the base, irradiance
/// and prefiltered cubemaps, then the 2D BRDF lookup pair, bindings 0-7.
pub fn scene_bind_group_layout_entries() -> (r: Vec<BindGroupLayoutEntry>)
    ensures
        r@ =~= seq![
            BindGroupLayoutEntry {
                binding: 0,
                ty: BindingType::Texture { view_dimension: TextureKind::Cube },
            },
            BindGroupLayoutEntry { binding: 1, ty: BindingType::Sampler },
            BindGroupLayoutEntry {
                binding: 2,
                ty: BindingType::Texture { view_dimension: TextureKind::Cube },
            },
            BindGroupLayoutEntry { binding: 3, ty: BindingType::Sampler },
            BindGroupLayoutEntry {
                binding: 4,
                ty: BindingType::Texture { view_dimension: TextureKind::Cube },
            },
            BindGroupLayoutEntry { binding: 5, ty: BindingType::Sampler },
            BindGroupLayoutEntry {
                binding: 6,
                ty: BindingType::Texture { view_dimension: TextureKind::D2 },
            },
            BindGroupLayoutEntry { binding: 7, ty: BindingType::Sampler },
        ],
{
    let mut v: Vec<BindGroupLayoutEntry> = Vec::new();
    v.push(texture_bind_group_entry(0, TextureKind::Cube));
    v.push(sampler_bind_group_entry(1));
    v.push(texture_bind_group_entry(2, TextureKind::Cube));
    v.push(sampler_bind_group_entry(3));
    v.push(texture_bind_group_entry(4, TextureKind::Cube));
    v.push(sampler_bind_group_entry(5));
    v.push(texture_bind_group_entry(6, TextureKind::D2));
    v.push(sampler_bind_group_entry(7));
    v
}

/// The blit pipeline for one target format: a fullscreen triangle with no
/// vertex buffer, replace blending over all channels, no culling and no
/// depth test, downsampling the previous mip level into the target.
pub fn blit_pipeline_desc(format: TextureFormat) -> (r: RenderPipelineDesc)
    ensures
        r.bind_group_slots@ == seq![PipelineBindGroupSlot::Blit],
        r.vertex_buffers@.len() == 0,
        r.color_target == (ColorTargetState {
            format,
            color_blend: BlendState::spec_replace(),
            alpha_blend: BlendState::spec_replace(),
            write_mask: ColorWriteMask::spec_all(),
        }),
        r.primitive == (PrimitiveState {
            topology: PrimitiveTopology::TriangleList,
            front_face: FrontFace::Ccw,
            cull_mode: CullMode::Disabled,
        }),
        r.depth_stencil is None,
        r.sample_count == 1,
{
    let mut bind_group_slots: Vec<PipelineBindGroupSlot> = Vec::new();
    bind_group_slots.push(PipelineBindGroupSlot::Blit);
    proof {
        assert(bind_group_slots@ =~= seq![PipelineBindGroupSlot::Blit]);
    }
    RenderPipelineDesc {
        bind_group_slots,
        vertex_buffers: Vec::new(),
        color_target: ColorTargetState {
            format,
            color_blend: BlendState::replace(),
            alpha_blend: BlendState::replace(),
            write_mask: ColorWriteMask::all_channels(),
        },
        primitive: PrimitiveState {
            topology: PrimitiveTopology::TriangleList,
            front_face: FrontFace::Ccw,
            cull_mode: CullMode::Disabled,
        },
        depth_stencil: None,
        sample_count: 1,
    }
}

/// The skybox pipeline: camera and scene groups, the mesh-vertex cube,
/// replace blending, no culling, and a less-equal depth test without depth
/// writes so the background sits behind everything.
pub fn skybox_pipeline_desc(color_format: TextureFormat) -> (r: RenderPipelineDesc)
    ensures
        r.bind_group_slots@ == seq![PipelineBindGroupSlot::Camera, PipelineBindGroupSlot::Scene],
        r.vertex_buffers@.len() == 1 && spec_is_mesh_vertex_layout(r.vertex_buffers@[0]),
        r.color_target == (ColorTargetState {
            format: color_format,
            color_blend: BlendState::spec_replace(),
            alpha_blend: BlendState::spec_replace(),
            write_mask: ColorWriteMask::spec_all(),
        }),
        r.primitive == (PrimitiveState {
            topology: PrimitiveTopology::TriangleList,
            front_face: FrontFace::Ccw,
            cull_mode: CullMode::Disabled,
        }),
        r.depth_stencil == Some(
            DepthStencilState {
                format: TextureFormat::Depth24PlusStencil8,
                depth_write_enabled: false,
                depth_compare: CompareFunction::LessEqual,
                stencil: StencilState::spec_disabled(),
            },
        ),
        r.sample_count == 1,
{
    let mut bind_group_slots: Vec<PipelineBindGroupSlot> = Vec::new();
    bind_group_slots.push(PipelineBindGroupSlot::Camera);
    bind_group_slots.push(PipelineBindGroupSlot::Scene);
    let mut vertex_buffers: Vec<VertexBufferLayout> = Vec::new();
    vertex_buffers.push(mesh_vertex_layout());
    proof {
        assert(bind_group_slots@ =~= seq![
            PipelineBindGroupSlot::Camera,
            PipelineBindGroupSlot::Scene,
        ]);
    }
    RenderPipelineDesc {
        bind_group_slots,
        vertex_buffers,
        color_target: ColorTargetState {
            format: color_format,
            color_blend: BlendState::replace(),
            alpha_blend: BlendState::replace(),
            write_mask: ColorWriteMask::all_channels(),
        },
        primitive: PrimitiveState {
            topology: PrimitiveTopology::TriangleList,
            front_face: FrontFace::Ccw,
            cull_mode: CullMode::Disabled,
        },
        depth_stencil: Some(
            DepthStencilState {
                format: TextureFormat::Depth24PlusStencil8,
                depth_write_enabled: false,
                depth_compare: CompareFunction::LessEqual,
                stencil: StencilState::disabled(),
            },
        ),
        sample_count: 1,
    }
}

/// The environment convolution pipeline, shared by the irradiance and the
/// prefilter pass (they differ only in the fragment program): camera and
/// precompute groups, cube geometry, sRGB color target, no culling, no
/// depth attachment.
pub fn envmap_pipeline_desc() -> (r: RenderPipelineDesc)
    ensures
        r.bind_group_slots@ == seq![
            PipelineBindGroupSlot::Camera,
            PipelineBindGroupSlot::EnvMapPreCalc,
        ],
        r.vertex_buffers@.len() == 1 && spec_is_mesh_vertex_layout(r.vertex_buffers@[0]),
        r.color_target == (ColorTargetState {
            format: TextureFormat::Rgba8UnormSrgb,
            color_blend: BlendState::spec_replace(),
            alpha_blend: BlendState::spec_replace(),
            write_mask: ColorWriteMask::spec_all(),
        }),
        r.primitive == (PrimitiveState {
            topology: PrimitiveTopology::TriangleList,
            front_face: FrontFace::Ccw,
            cull_mode: CullMode::Disabled,
        }),
        r.depth_stencil is None,
        r.sample_count == 1,
{
    let mut bind_group_slots: Vec<PipelineBindGroupSlot> = Vec::new();
    bind_group_slots.push(PipelineBindGroupSlot::Camera);
    bind_group_slots.push(PipelineBindGroupSlot::EnvMapPreCalc);
    let mut vertex_buffers: Vec<VertexBufferLayout> = Vec::new();
    vertex_buffers.push(mesh_vertex_layout());
    proof {
        assert(bind_group_slots@ =~= seq![
            PipelineBindGroupSlot::Camera,
            PipelineBindGroupSlot::EnvMapPreCalc,
        ]);
    }
    RenderPipelineDesc {
        bind_group_slots,
        vertex_buffers,
        color_target: ColorTargetState {
            format: TextureFormat::Rgba8UnormSrgb,
            color_blend: BlendState::replace(),
            alpha_blend: BlendState::replace(),
            write_mask: ColorWriteMask::all_channels(),
        },
        primitive: PrimitiveState {
            topology: PrimitiveTopology::TriangleList,
            front_face: FrontFace::Ccw,
            cull_mode: CullMode::Disabled,
        },
        depth_stencil: None,
        sample_count: 1,
    }
}

} // verus!
