use render_core::description::{
    BlendDescription, ShaderDescription, StencilDescription, SubShaderDescription,
    TextureDescription,
};
use render_core::shader::{
    shader_stage_from_extension, texture_property_from_description, uniform_property_from_str,
    Shader, ShaderStage, TextureProperty, UniformProperty,
};
use render_core::state::{
    blend_factor_from_str, blend_op_from_str, compare_func_from_str, cull_mode_from_str,
    front_face_from_str, sub_shader_option_from_description, BlendFactor, BlendOperation,
    CompareFunction, CullMode, FrontFace, SubShaderOption,
};
use render_core::texture::TextureDefault;

fn bare_sub_shader() -> SubShaderDescription {
    SubShaderDescription {
        tag: "ForwardBase".to_string(),
        vs: "shader.vert".to_string(),
        fs: "shader.frag".to_string(),
        definitions: Vec::new(),
        cull: None,
        front_face: None,
        write_mask: None,
        blend: None,
        depth_write: None,
        depth_compare: None,
        stencil: None,
    }
}

#[test]
fn every_cull_keyword_round_trips() {
    assert_eq!(cull_mode_from_str("front").unwrap(), CullMode::Front);
    assert_eq!(cull_mode_from_str("back").unwrap(), CullMode::Back);
    assert_eq!(cull_mode_from_str("none").unwrap(), CullMode::Disabled);
    let err = cull_mode_from_str("sideways").unwrap_err();
    assert_eq!(err.message(), "Unknown cull value: 'sideways'");
}

#[test]
fn every_front_face_keyword_round_trips() {
    assert_eq!(front_face_from_str("ccw").unwrap(), FrontFace::Ccw);
    assert_eq!(front_face_from_str("cw").unwrap(), FrontFace::Cw);
    let err = front_face_from_str("cww").unwrap_err();
    assert_eq!(err.message(), "Unknown front face value: 'cww'");
}

#[test]
fn every_blend_op_keyword_round_trips() {
    assert_eq!(blend_op_from_str("add").unwrap(), BlendOperation::Add);
    assert_eq!(blend_op_from_str("max").unwrap(), BlendOperation::Max);
    assert_eq!(blend_op_from_str("min").unwrap(), BlendOperation::Min);
    assert_eq!(blend_op_from_str("sub").unwrap(), BlendOperation::Subtract);
    assert_eq!(blend_op_from_str("rsub").unwrap(), BlendOperation::ReverseSubtract);
    let err = blend_op_from_str("mul").unwrap_err();
    assert_eq!(err.message(), "Unknown blend operation 'mul'");
}

#[test]
fn every_blend_factor_keyword_round_trips() {
    let cases = [
        ("one", BlendFactor::One),
        ("zero", BlendFactor::Zero),
        ("src_alpha", BlendFactor::SrcAlpha),
        ("src_color", BlendFactor::SrcColor),
        ("one_minus_src_alpha", BlendFactor::OneMinusSrcAlpha),
        ("one_minus_src_color", BlendFactor::OneMinusSrcColor),
        ("dst_alpha", BlendFactor::DstAlpha),
        ("dst_color", BlendFactor::DstColor),
        ("one_minus_dst_alpha", BlendFactor::OneMinusDstAlpha),
        ("one_minus_dst_color", BlendFactor::OneMinusDstColor),
    ];
    for (kw, expected) in cases {
        assert_eq!(blend_factor_from_str(kw).unwrap(), expected, "keyword {}", kw);
    }
    let err = blend_factor_from_str("two").unwrap_err();
    assert_eq!(err.message(), "Unknown blend factor 'two'");
}

#[test]
fn every_compare_keyword_round_trips() {
    let cases = [
        ("always", CompareFunction::Always),
        ("never", CompareFunction::Never),
        ("equal", CompareFunction::Equal),
        ("nequal", CompareFunction::NotEqual),
        ("less", CompareFunction::Less),
        ("lequal", CompareFunction::LessEqual),
        ("greater", CompareFunction::Greater),
        ("gequal", CompareFunction::GreaterEqual),
    ];
    for (kw, expected) in cases {
        assert_eq!(compare_func_from_str(kw).unwrap(), expected, "keyword {}", kw);
    }
    let err = compare_func_from_str("lesser").unwrap_err();
    assert_eq!(err.message(), "Unknown compare function 'lesser'");
}

#[test]
fn every_uniform_property_keyword_round_trips() {
    let cases = [
        ("float", UniformProperty::Float),
        ("vec2", UniformProperty::Vec2),
        ("vec3", UniformProperty::Vec3),
        ("vec4", UniformProperty::Vec4),
        ("mat3", UniformProperty::Mat3),
        ("mat4", UniformProperty::Mat4),
    ];
    for (kw, expected) in cases {
        assert_eq!(uniform_property_from_str(kw).unwrap(), expected, "keyword {}", kw);
    }
    let err = uniform_property_from_str("vec5").unwrap_err();
    assert_eq!(err.message(), "Unknown uniform property 'vec5'");
}

#[test]
fn shader_stage_extensions() {
    assert_eq!(shader_stage_from_extension("vert"), Some(ShaderStage::Vertex));
    assert_eq!(shader_stage_from_extension("frag"), Some(ShaderStage::Fragment));
    assert_eq!(shader_stage_from_extension("comp"), Some(ShaderStage::Compute));
    assert_eq!(shader_stage_from_extension("glsl"), None);
}

fn texture_desc(ty: &str, name: &str, default: Option<&str>) -> TextureDescription {
    TextureDescription {
        ty: ty.to_string(),
        name: name.to_string(),
        default: default.map(|s| s.to_string()),
    }
}

#[test]
fn texture_property_parsing() {
    assert_eq!(
        texture_property_from_description(&texture_desc("2D", "t", Some("white"))).unwrap(),
        TextureProperty::Texture2D(TextureDefault::White)
    );
    assert_eq!(
        texture_property_from_description(&texture_desc("2D", "t", Some("black"))).unwrap(),
        TextureProperty::Texture2D(TextureDefault::Black)
    );
    assert_eq!(
        texture_property_from_description(&texture_desc("2D", "t", Some("normal"))).unwrap(),
        TextureProperty::Texture2D(TextureDefault::Normal)
    );
    assert_eq!(
        texture_property_from_description(&texture_desc("2D", "t", Some("gray"))).unwrap(),
        TextureProperty::Texture2D(TextureDefault::Gray)
    );
    // the British spelling is accepted as the same placeholder
    assert_eq!(
        texture_property_from_description(&texture_desc("2D", "t", Some("grey"))).unwrap(),
        TextureProperty::Texture2D(TextureDefault::Gray)
    );
    assert_eq!(
        texture_property_from_description(&texture_desc("3D", "t", None)).unwrap(),
        TextureProperty::Texture3D
    );
    assert_eq!(
        texture_property_from_description(&texture_desc("Cube", "t", None)).unwrap(),
        TextureProperty::TextureCube
    );

    let err = texture_property_from_description(&texture_desc("2D", "t", Some("pink")))
        .unwrap_err();
    assert_eq!(err.message(), "Unknown texture2D default value 'pink'");
    assert!(texture_property_from_description(&texture_desc("2D", "t", None)).is_err());
    let err = texture_property_from_description(&texture_desc("4D", "t", None)).unwrap_err();
    assert_eq!(err.message(), "Unknown texture property '4D'");
}

#[test]
fn sub_shader_defaults_match_documented_state() {
    let option = sub_shader_option_from_description(&bare_sub_shader()).unwrap();
    assert_eq!(option, SubShaderOption::default());
    assert_eq!(option.cull_mode, CullMode::Back);
    assert_eq!(option.front_face, FrontFace::Ccw);
    assert!(option.write_mask.red && option.write_mask.green);
    assert!(option.write_mask.blue && option.write_mask.alpha);
    assert_eq!(option.color_blend.operation, BlendOperation::Add);
    assert_eq!(option.color_blend.src_factor, BlendFactor::One);
    assert_eq!(option.color_blend.dst_factor, BlendFactor::Zero);
    assert!(option.depth_write);
    assert_eq!(option.depth_compare, CompareFunction::Less);
    assert_eq!(option.stencil.read_mask, 0);
}

#[test]
fn cull_front_with_add_one_zero_blend_round_trips() {
    let mut desc = bare_sub_shader();
    desc.cull = Some("front".to_string());
    desc.blend = Some(BlendDescription {
        op: Some("add".to_string()),
        src: Some("one".to_string()),
        dst: Some("zero".to_string()),
        op_alpha: None,
        src_alpha: None,
        dst_alpha: None,
    });
    let option = sub_shader_option_from_description(&desc).unwrap();
    assert_eq!(option.cull_mode, CullMode::Front);
    assert_eq!(option.color_blend.operation, BlendOperation::Add);
    assert_eq!(option.color_blend.src_factor, BlendFactor::One);
    assert_eq!(option.color_blend.dst_factor, BlendFactor::Zero);
    // absent alpha fields leave the alpha equation at replace
    assert_eq!(option.alpha_blend.operation, BlendOperation::Add);
    assert_eq!(option.alpha_blend.src_factor, BlendFactor::One);
    assert_eq!(option.alpha_blend.dst_factor, BlendFactor::Zero);
}

#[test]
fn alpha_blend_fields_are_separate() {
    let mut desc = bare_sub_shader();
    desc.blend = Some(BlendDescription {
        op: Some("max".to_string()),
        src: Some("src_alpha".to_string()),
        dst: Some("one_minus_src_alpha".to_string()),
        op_alpha: Some("min".to_string()),
        src_alpha: Some("dst_color".to_string()),
        dst_alpha: Some("one".to_string()),
    });
    let option = sub_shader_option_from_description(&desc).unwrap();
    assert_eq!(option.color_blend.operation, BlendOperation::Max);
    assert_eq!(option.color_blend.src_factor, BlendFactor::SrcAlpha);
    assert_eq!(option.color_blend.dst_factor, BlendFactor::OneMinusSrcAlpha);
    assert_eq!(option.alpha_blend.operation, BlendOperation::Min);
    assert_eq!(option.alpha_blend.src_factor, BlendFactor::DstColor);
    assert_eq!(option.alpha_blend.dst_factor, BlendFactor::One);
}

#[test]
fn write_mask_lists_channels() {
    let mut desc = bare_sub_shader();
    desc.write_mask = Some(vec!["R".to_string(), "B".to_string()]);
    let option = sub_shader_option_from_description(&desc).unwrap();
    assert!(option.write_mask.red);
    assert!(!option.write_mask.green);
    assert!(option.write_mask.blue);
    assert!(!option.write_mask.alpha);

    desc.write_mask = Some(vec!["R".to_string(), "X".to_string()]);
    let err = sub_shader_option_from_description(&desc).unwrap_err();
    assert_eq!(err.message(), "Unknown color write mask value: 'X'");
}

#[test]
fn depth_and_stencil_fields_carry_over() {
    let mut desc = bare_sub_shader();
    desc.depth_write = Some(false);
    desc.depth_compare = Some("gequal".to_string());
    desc.stencil = Some(StencilDescription {
        read_mask: Some(0xff),
        write_mask: Some(0x1_0000_00ff),
        front_present: false,
        back_present: false,
    });
    let option = sub_shader_option_from_description(&desc).unwrap();
    assert!(!option.depth_write);
    assert_eq!(option.depth_compare, CompareFunction::GreaterEqual);
    assert_eq!(option.stencil.read_mask, 0xff);
    // only the low 32 bits of the mask are kept
    assert_eq!(option.stencil.write_mask, 0xff);
}

#[test]
fn stencil_face_states_are_rejected() {
    let mut desc = bare_sub_shader();
    desc.stencil = Some(StencilDescription {
        read_mask: None,
        write_mask: None,
        front_present: true,
        back_present: false,
    });
    let err = sub_shader_option_from_description(&desc).unwrap_err();
    assert_eq!(err.message(), "Stencil face states are not supported");
}

#[test]
fn unknown_keyword_fails_whole_shader_description() {
    let mut sub = bare_sub_shader();
    sub.cull = Some("everything".to_string());
    let desc = ShaderDescription {
        name: "s".to_string(),
        uniform_properties: vec![("float".to_string(), "f".to_string())],
        texture_properties: Vec::new(),
        sub_shaders: vec![sub],
    };
    let err = Shader::from_description(&desc).unwrap_err();
    assert_eq!(err.message(), "Unknown cull value: 'everything'");
}

#[test]
fn texture_default_error_surfaces_through_description() {
    let desc = ShaderDescription {
        name: "s".to_string(),
        uniform_properties: Vec::new(),
        texture_properties: vec![texture_desc("2D", "t", Some("pink"))],
        sub_shaders: Vec::new(),
    };
    let err = Shader::from_description(&desc).unwrap_err();
    assert_eq!(err.message(), "Unknown texture2D default value 'pink'");
}

#[test]
fn full_description_builds_a_shader() {
    let desc = ShaderDescription {
        name: "pbr".to_string(),
        uniform_properties: vec![
            ("vec4".to_string(), "base_color".to_string()),
            ("float".to_string(), "metallic_factor".to_string()),
        ],
        texture_properties: vec![texture_desc("2D", "base_color_tex", Some("white"))],
        sub_shaders: vec![bare_sub_shader()],
    };
    let mut shader = Shader::from_description(&desc).unwrap();
    assert_eq!(shader.name, "pbr");
    assert_eq!(shader.uniform_properties.len(), 2);
    assert_eq!(shader.uniform_properties[0].1, UniformProperty::Vec4);
    assert_eq!(shader.texture_properties.len(), 1);
    assert_eq!(shader.sub_shaders.len(), 1);
    assert_eq!(shader.sub_shaders[0].tag, "ForwardBase");
    shader.build();
    assert_eq!(shader.get_uniform_offset("base_color"), Some(0));
    assert_eq!(shader.get_uniform_offset("metallic_factor"), Some(16));
    assert_eq!(shader.uniform_size, 32);
}

#[test]
fn repeated_pass_tag_keeps_the_later_pass() {
    let mut first = bare_sub_shader();
    first.vs = "a.vert".to_string();
    let mut second = bare_sub_shader();
    second.vs = "b.vert".to_string();
    let desc = ShaderDescription {
        name: "s".to_string(),
        uniform_properties: Vec::new(),
        texture_properties: Vec::new(),
        sub_shaders: vec![first, second],
    };
    let shader = Shader::from_description(&desc).unwrap();
    assert_eq!(shader.sub_shaders.len(), 1);
    assert_eq!(shader.sub_shaders[0].vs_file, "b.vert");
}
