use render_core::description::{BlendDescription, ShaderDescription, SubShaderDescription};
use render_core::inner_pipelines::{
    blit_bind_group_layout_entries, blit_pipeline_desc, envmap_bind_group_layout_entries,
    envmap_pipeline_desc, scene_bind_group_layout_entries, skybox_pipeline_desc,
};
use render_core::graphics::{
    camera_bind_group_layout_entries, light_bind_group_layout_entries,
    object_bind_group_layout_entries, BindingType,
};
use render_core::pipeline::PipelineBindGroupSlot;
use render_core::registry::{find_material_index, load_shader_set, pass_tag_for_light, Registry};
use render_core::shader::Shader;
use render_core::state::{BlendFactor, BlendOperation, CompareFunction, CullMode, FrontFace};
use render_core::texture::{TextureFormat, TextureKind};
use render_core::vertex::{mesh_vertex_layout, VertexFormat};

fn forward_base_pass() -> SubShaderDescription {
    SubShaderDescription {
        tag: "ForwardBase".to_string(),
        vs: "pbr.vert".to_string(),
        fs: "pbr.frag".to_string(),
        definitions: vec![("USE_IBL".to_string(), None)],
        cull: Some("front".to_string()),
        front_face: Some("cw".to_string()),
        write_mask: None,
        blend: Some(BlendDescription {
            op: Some("add".to_string()),
            src: Some("one".to_string()),
            dst: Some("zero".to_string()),
            op_alpha: None,
            src_alpha: None,
            dst_alpha: None,
        }),
        depth_write: Some(false),
        depth_compare: Some("lequal".to_string()),
        stencil: None,
    }
}

fn shader_description() -> ShaderDescription {
    ShaderDescription {
        name: "pbr".to_string(),
        uniform_properties: vec![("vec4".to_string(), "base_color".to_string())],
        texture_properties: Vec::new(),
        sub_shaders: vec![forward_base_pass()],
    }
}

#[test]
fn mesh_vertex_layout_is_tightly_packed() {
    let layout = mesh_vertex_layout();
    assert_eq!(layout.array_stride, 64);
    let expected = [
        (VertexFormat::Float3, 0u64, 0u32),
        (VertexFormat::Float2, 12, 1),
        (VertexFormat::Float3, 20, 2),
        (VertexFormat::Float4, 32, 3),
        (VertexFormat::Float4, 48, 4),
    ];
    assert_eq!(layout.attributes.len(), expected.len());
    for (attr, (format, offset, location)) in layout.attributes.iter().zip(expected.iter()) {
        assert_eq!(attr.format, *format);
        assert_eq!(attr.offset, *offset);
        assert_eq!(attr.shader_location, *location);
    }
}

#[test]
fn render_pipeline_requires_build_first() {
    let shader = Shader::from_description(&shader_description()).unwrap();
    let result = shader.sub_shaders[0].render_pipeline(
        &shader,
        TextureFormat::Bgra8UnormSrgb,
        TextureFormat::Depth24PlusStencil8,
    );
    assert!(result.is_err());
}

#[test]
fn parsed_raster_state_reaches_the_pipeline() {
    let mut shader = Shader::from_description(&shader_description()).unwrap();
    shader.build();
    let desc = shader.sub_shaders[0]
        .render_pipeline(
            &shader,
            TextureFormat::Bgra8UnormSrgb,
            TextureFormat::Depth24PlusStencil8,
        )
        .unwrap();
    assert_eq!(desc.primitive.cull_mode, CullMode::Front);
    assert_eq!(desc.primitive.front_face, FrontFace::Cw);
    assert_eq!(desc.color_target.format, TextureFormat::Bgra8UnormSrgb);
    assert_eq!(desc.color_target.color_blend.operation, BlendOperation::Add);
    assert_eq!(desc.color_target.color_blend.src_factor, BlendFactor::One);
    assert_eq!(desc.color_target.color_blend.dst_factor, BlendFactor::Zero);
    let depth = desc.depth_stencil.unwrap();
    assert!(!depth.depth_write_enabled);
    assert_eq!(depth.depth_compare, CompareFunction::LessEqual);
    assert_eq!(
        desc.bind_group_slots,
        vec![
            PipelineBindGroupSlot::ShaderSpecific,
            PipelineBindGroupSlot::Object,
            PipelineBindGroupSlot::Camera,
            PipelineBindGroupSlot::Light,
        ]
    );
    assert_eq!(desc.vertex_buffers.len(), 1);
    assert_eq!(desc.vertex_buffers[0].array_stride, 64);
    assert_eq!(desc.sample_count, 1);
}

#[test]
fn registry_registers_one_pipeline_per_pass() {
    let shader_descs = vec![shader_description()];
    let material_descs = vec![render_core::description::MaterialDescription {
        name: "gold".to_string(),
        shader: "pbr".to_string(),
    }];
    let (registry, materials) = load_shader_set(
        &shader_descs,
        &material_descs,
        TextureFormat::Bgra8UnormSrgb,
        TextureFormat::Depth24PlusStencil8,
    )
    .unwrap();
    assert_eq!(registry.shaders.len(), 1);
    assert_eq!(registry.pipelines.len(), 1);
    assert_eq!(materials.len(), 1);
    assert_eq!(materials[0].name, "gold");
    assert_eq!(materials[0].shader, "pbr");

    assert!(registry.pipeline_for("pbr", "ForwardBase").is_some());
    // a missing pass is a soft miss, not an error
    assert!(registry.pipeline_for("pbr", "ForwardAdd").is_none());
    assert!(registry.pipeline_for("ghost", "ForwardBase").is_none());

    assert!(registry.pipeline_for_draw("pbr", 0).is_some());
    assert!(registry.pipeline_for_draw("pbr", 1).is_none());
}

#[test]
fn material_for_unknown_shader_fails_the_load() {
    let shader_descs = vec![shader_description()];
    let material_descs = vec![render_core::description::MaterialDescription {
        name: "gold".to_string(),
        shader: "missing".to_string(),
    }];
    let err = load_shader_set(
        &shader_descs,
        &material_descs,
        TextureFormat::Bgra8UnormSrgb,
        TextureFormat::Depth24PlusStencil8,
    )
    .unwrap_err();
    assert_eq!(err.message(), "Unknown shader 'missing'");
}

#[test]
fn meshes_find_their_material_by_name() {
    let shader_descs = vec![shader_description()];
    let material_descs = vec![
        render_core::description::MaterialDescription {
            name: "gold".to_string(),
            shader: "pbr".to_string(),
        },
        render_core::description::MaterialDescription {
            name: "rust".to_string(),
            shader: "pbr".to_string(),
        },
    ];
    let (_, materials) = load_shader_set(
        &shader_descs,
        &material_descs,
        TextureFormat::Bgra8UnormSrgb,
        TextureFormat::Depth24PlusStencil8,
    )
    .unwrap();
    assert_eq!(find_material_index(&materials, "gold"), Some(0));
    assert_eq!(find_material_index(&materials, "rust"), Some(1));
    // a mesh naming an unknown material simply draws nothing
    assert_eq!(find_material_index(&materials, "chrome"), None);
}

#[test]
fn draw_plan_pairs_lights_and_meshes_with_soft_misses() {
    // one shader with only a ForwardBase pass: meshes draw under the first
    // light only, and a mesh with an unknown material never draws
    let shader_descs = vec![shader_description()];
    let material_descs = vec![render_core::description::MaterialDescription {
        name: "gold".to_string(),
        shader: "pbr".to_string(),
    }];
    let (registry, materials) = load_shader_set(
        &shader_descs,
        &material_descs,
        TextureFormat::Bgra8UnormSrgb,
        TextureFormat::Depth24PlusStencil8,
    )
    .unwrap();
    let mesh_materials = vec!["gold".to_string(), "ghost".to_string(), "gold".to_string()];
    let plan = registry.draw_plan(&mesh_materials, &materials, 2);
    // light 0 (ForwardBase) draws meshes 0 and 2; light 1 (ForwardAdd) has
    // no pass, so no draws at all
    assert_eq!(plan.len(), 2);
    assert_eq!((plan[0].mesh_index, plan[0].light_index), (0, 0));
    assert_eq!((plan[1].mesh_index, plan[1].light_index), (2, 0));
}

#[test]
fn first_light_uses_forward_base_then_forward_add() {
    assert_eq!(pass_tag_for_light(0), "ForwardBase");
    assert_eq!(pass_tag_for_light(1), "ForwardAdd");
    assert_eq!(pass_tag_for_light(7), "ForwardAdd");
}

#[test]
fn registry_create_material_uses_the_named_shader() {
    let mut registry = Registry::new();
    let mut shader = Shader::from_description(&shader_description()).unwrap();
    shader.build();
    registry
        .add_shader(
            shader,
            TextureFormat::Bgra8UnormSrgb,
            TextureFormat::Depth24PlusStencil8,
        )
        .unwrap();
    let material = registry.create_material("gold".to_string(), "pbr").unwrap();
    assert_eq!(material.shader, "pbr");
    assert_eq!(material.uniform_bytes.len(), 16);
    assert!(registry.create_material("x".to_string(), "ghost").is_none());
}

#[test]
fn unbuilt_shader_cannot_be_registered() {
    let mut registry = Registry::new();
    let shader = Shader::from_description(&shader_description()).unwrap();
    assert!(registry
        .add_shader(
            shader,
            TextureFormat::Bgra8UnormSrgb,
            TextureFormat::Depth24PlusStencil8,
        )
        .is_err());
}

#[test]
fn blit_pipeline_is_fullscreen_without_depth() {
    let desc = blit_pipeline_desc(TextureFormat::Rgba16Float);
    assert_eq!(desc.bind_group_slots, vec![PipelineBindGroupSlot::Blit]);
    assert!(desc.vertex_buffers.is_empty());
    assert_eq!(desc.color_target.format, TextureFormat::Rgba16Float);
    assert_eq!(desc.primitive.cull_mode, CullMode::Disabled);
    assert!(desc.depth_stencil.is_none());
}

#[test]
fn skybox_pipeline_tests_depth_without_writing() {
    let desc = skybox_pipeline_desc(TextureFormat::Bgra8UnormSrgb);
    assert_eq!(
        desc.bind_group_slots,
        vec![PipelineBindGroupSlot::Camera, PipelineBindGroupSlot::Scene]
    );
    let depth = desc.depth_stencil.unwrap();
    assert!(!depth.depth_write_enabled);
    assert_eq!(depth.depth_compare, CompareFunction::LessEqual);
    assert_eq!(depth.format, TextureFormat::Depth24PlusStencil8);
}

#[test]
fn envmap_pipeline_renders_into_srgb_faces() {
    let desc = envmap_pipeline_desc();
    assert_eq!(
        desc.bind_group_slots,
        vec![
            PipelineBindGroupSlot::Camera,
            PipelineBindGroupSlot::EnvMapPreCalc,
        ]
    );
    assert_eq!(desc.color_target.format, TextureFormat::Rgba8UnormSrgb);
    assert!(desc.depth_stencil.is_none());
}

#[test]
fn inner_bind_group_layouts() {
    let blit = blit_bind_group_layout_entries();
    assert_eq!(blit.len(), 2);
    assert!(matches!(
        blit[0].ty,
        BindingType::Texture { view_dimension: TextureKind::D2 }
    ));
    assert!(matches!(blit[1].ty, BindingType::Sampler));

    let env = envmap_bind_group_layout_entries();
    assert_eq!(env.len(), 3);
    assert!(matches!(
        env[0].ty,
        BindingType::Texture { view_dimension: TextureKind::Cube }
    ));
    assert!(matches!(env[2].ty, BindingType::UniformBuffer));

    let scene = scene_bind_group_layout_entries();
    assert_eq!(scene.len(), 8);
    for (i, entry) in scene.iter().enumerate() {
        assert_eq!(entry.binding, i as u32);
    }
    assert!(matches!(
        scene[6].ty,
        BindingType::Texture { view_dimension: TextureKind::D2 }
    ));
}

#[test]
fn fixed_group_layouts_hold_one_uniform_buffer() {
    for entries in [
        object_bind_group_layout_entries(),
        camera_bind_group_layout_entries(),
        light_bind_group_layout_entries(),
    ] {
        assert_eq!(entries.len(), 1);
        assert_eq!(entries[0].binding, 0);
        assert!(matches!(entries[0].ty, BindingType::UniformBuffer));
    }
}
