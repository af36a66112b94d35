use render_core::json::{load_shaders_from_json, shader_description_from_json, shader_from_json};
use render_core::state::{BlendFactor, BlendOperation, CullMode};
use render_core::texture::TextureFormat;

fn shader_json() -> serde_json::Value {
    serde_json::from_str(
        r#"{
            "name": "pbr",
            "uniform_properties": [
                ["vec4", "base_color"],
                ["float", "metallic_factor"]
            ],
            "texture_properties": [
                ["2D", "base_color_tex", "white"],
                ["Cube", "env_tex"]
            ],
            "subshaders": [
                {
                    "tag": "ForwardBase",
                    "vs": "pbr.vert",
                    "fs": "pbr.frag",
                    "definition": {"USE_IBL": null, "MAX_LIGHTS": "4"},
                    "cull": "front",
                    "blend": {"op": "add", "src": "one", "dst": "zero"}
                },
                {
                    "tag": "ForwardAdd",
                    "vs": "pbr.vert",
                    "fs": "pbr_add.frag",
                    "blend": {"op": "add", "src": "one", "dst": "one"},
                    "depth_write": false
                }
            ]
        }"#,
    )
    .unwrap()
}

#[test]
fn shader_description_reads_every_section() {
    let desc = shader_description_from_json(&shader_json()).unwrap();
    assert_eq!(desc.name, "pbr");
    assert_eq!(
        desc.uniform_properties,
        vec![
            ("vec4".to_string(), "base_color".to_string()),
            ("float".to_string(), "metallic_factor".to_string()),
        ]
    );
    assert_eq!(desc.texture_properties.len(), 2);
    assert_eq!(desc.texture_properties[0].ty, "2D");
    assert_eq!(desc.texture_properties[0].default.as_deref(), Some("white"));
    assert_eq!(desc.texture_properties[1].ty, "Cube");
    assert_eq!(desc.texture_properties[1].default, None);
    assert_eq!(desc.sub_shaders.len(), 2);
    let base = &desc.sub_shaders[0];
    assert_eq!(base.tag, "ForwardBase");
    assert_eq!(base.cull.as_deref(), Some("front"));
    assert_eq!(base.definitions.len(), 2);
    assert!(base
        .definitions
        .iter()
        .any(|(k, v)| k == "USE_IBL" && v.is_none()));
    assert!(base
        .definitions
        .iter()
        .any(|(k, v)| k == "MAX_LIGHTS" && v.as_deref() == Some("4")));
    assert_eq!(desc.sub_shaders[1].depth_write, Some(false));
}

#[test]
fn shader_from_json_builds_layout_and_state() {
    let mut shader = shader_from_json(&shader_json()).unwrap();
    shader.build();
    assert_eq!(shader.get_uniform_offset("base_color"), Some(0));
    assert_eq!(shader.get_uniform_offset("metallic_factor"), Some(16));
    assert_eq!(shader.uniform_size, 32);
    assert_eq!(shader.get_texture_index("base_color_tex"), Some(0));
    assert_eq!(shader.get_texture_index("env_tex"), Some(1));
    let base = &shader.sub_shaders[0];
    assert_eq!(base.options.cull_mode, CullMode::Front);
    assert_eq!(base.options.color_blend.operation, BlendOperation::Add);
    let add = &shader.sub_shaders[1];
    assert_eq!(add.options.color_blend.dst_factor, BlendFactor::One);
    assert!(!add.options.depth_write);
}

#[test]
fn missing_required_field_is_reported() {
    let v: serde_json::Value = serde_json::from_str(r#"{"uniform_properties": []}"#).unwrap();
    let err = shader_description_from_json(&v).unwrap_err();
    assert_eq!(err.message(), "Missing or invalid field 'name'");
}

#[test]
fn unknown_keyword_in_json_is_reported() {
    let v: serde_json::Value = serde_json::from_str(
        r#"{
            "name": "s",
            "uniform_properties": [["vec7", "x"]],
            "texture_properties": [],
            "subshaders": []
        }"#,
    )
    .unwrap();
    let err = shader_from_json(&v).unwrap_err();
    assert_eq!(err.message(), "Unknown uniform property 'vec7'");
}

#[test]
fn whole_document_loads_registry_and_materials() {
    let doc: serde_json::Value = serde_json::from_str(
        r#"{
            "shaders": [{
                "name": "pbr",
                "uniform_properties": [["vec4", "base_color"]],
                "texture_properties": [],
                "subshaders": [
                    {"tag": "ForwardBase", "vs": "a.vert", "fs": "a.frag"},
                    {"tag": "ForwardAdd", "vs": "a.vert", "fs": "b.frag"}
                ]
            }],
            "materials": [
                {"name": "gold", "shader": "pbr"},
                {"name": "rust", "shader": "pbr"}
            ]
        }"#,
    )
    .unwrap();
    let (registry, materials) = load_shaders_from_json(
        &doc,
        TextureFormat::Bgra8UnormSrgb,
        TextureFormat::Depth24PlusStencil8,
    )
    .unwrap();
    assert_eq!(registry.shaders.len(), 1);
    assert_eq!(registry.pipelines.len(), 2);
    assert_eq!(materials.len(), 2);
    assert!(registry.pipeline_for("pbr", "ForwardBase").is_some());
    assert!(registry.pipeline_for("pbr", "ForwardAdd").is_some());
    assert!(registry.pipeline_for("pbr", "Shadow").is_none());
}

#[test]
fn material_with_unknown_shader_fails_the_document() {
    let doc: serde_json::Value = serde_json::from_str(
        r#"{
            "shaders": [],
            "materials": [{"name": "gold", "shader": "pbr"}]
        }"#,
    )
    .unwrap();
    let err = load_shaders_from_json(
        &doc,
        TextureFormat::Bgra8UnormSrgb,
        TextureFormat::Depth24PlusStencil8,
    )
    .unwrap_err();
    assert_eq!(err.message(), "Unknown shader 'pbr'");
}
