use render_core::material::{BindingResource, Material};
use render_core::shader::{Shader, TextureProperty, UniformProperty};
use render_core::texture::{SamplerDescriptor, Texture, TextureDefault, TextureFormat, TextureKind};

fn test_shader() -> Shader {
    let mut shader = Shader::new(
        "pbr".to_string(),
        vec![
            ("base_color".to_string(), UniformProperty::Vec4),
            ("metallic_factor".to_string(), UniformProperty::Float),
            ("normal_scale".to_string(), UniformProperty::Vec3),
        ],
        vec![(
            "base_color_tex".to_string(),
            TextureProperty::Texture2D(TextureDefault::White),
        )],
        Vec::new(),
    );
    shader.build();
    shader
}

fn test_material() -> Material {
    Material::from_shader("mat".to_string(), &test_shader())
}

#[test]
fn fresh_material_is_zeroed_to_uniform_size() {
    let shader = test_shader();
    let material = Material::from_shader("mat".to_string(), &shader);
    assert_eq!(material.uniform_bytes.len(), shader.uniform_size);
    assert!(material.uniform_bytes.iter().all(|b| *b == 0));
    assert_eq!(material.shader, "pbr");
    assert!(material.resource_group.is_none());
}

#[test]
fn set_float_writes_little_endian_bytes() {
    let mut material = test_material();
    material.set_float("metallic_factor", 0.25f32.to_bits());
    let off = 16;
    assert_eq!(&material.uniform_bytes[off..off + 4], &0.25f32.to_le_bytes());
}

#[test]
fn set_unknown_name_is_a_noop() {
    let mut material = test_material();
    let before = material.uniform_bytes.clone();
    material.set_float("unknown", 1.0f32.to_bits());
    assert_eq!(material.uniform_bytes, before);
}

#[test]
fn second_write_overwrites_first_exactly() {
    let mut twice = test_material();
    twice.set_float("metallic_factor", 0.5f32.to_bits());
    twice.set_float("metallic_factor", 0.75f32.to_bits());

    let mut once = test_material();
    once.set_float("metallic_factor", 0.75f32.to_bits());

    assert_eq!(twice.uniform_bytes, once.uniform_bytes);
}

#[test]
fn set_vec4_writes_all_components() {
    let mut material = test_material();
    let v = [1.0f32, 0.5f32, 0.25f32, 1.0f32];
    material.set_vec4("base_color", v.map(|f| f.to_bits()));
    for (i, f) in v.iter().enumerate() {
        assert_eq!(
            &material.uniform_bytes[4 * i..4 * i + 4],
            &f.to_le_bytes(),
            "component {}",
            i
        );
    }
}

#[test]
fn set_vec3_leaves_neighbors_untouched() {
    let mut material = test_material();
    material.set_vec4("base_color", [1.0f32.to_bits(); 4]);
    material.set_float("metallic_factor", 1.0f32.to_bits());
    let before = material.uniform_bytes.clone();
    material.set_vec3("normal_scale", [2.0f32.to_bits(); 3]);
    // the vec3 sits at offset 32; bytes outside [32, 44) are unchanged
    assert_eq!(&material.uniform_bytes[..32], &before[..32]);
    assert_eq!(&material.uniform_bytes[44..], &before[44..]);
    assert_eq!(&material.uniform_bytes[32..36], &2.0f32.to_le_bytes());
}

#[test]
fn set_mat3_pads_each_column_to_sixteen_bytes() {
    let mut shader = Shader::new(
        "m".to_string(),
        vec![("m3".to_string(), UniformProperty::Mat3)],
        Vec::new(),
        Vec::new(),
    );
    shader.build();
    let mut material = Material::from_shader("mat".to_string(), &shader);
    let cols = [
        [1.0f32, 2.0, 3.0],
        [4.0, 5.0, 6.0],
        [7.0, 8.0, 9.0],
    ];
    material.set_mat3("m3", cols.map(|c| c.map(|f| f.to_bits())));
    for (c, col) in cols.iter().enumerate() {
        for (k, f) in col.iter().enumerate() {
            let off = 16 * c + 4 * k;
            assert_eq!(&material.uniform_bytes[off..off + 4], &f.to_le_bytes());
        }
        let pad = 16 * c + 12;
        assert_eq!(&material.uniform_bytes[pad..pad + 4], &0.0f32.to_le_bytes());
    }
}

#[test]
fn set_mat4_writes_sixteen_components() {
    let mut shader = Shader::new(
        "m".to_string(),
        vec![("m4".to_string(), UniformProperty::Mat4)],
        Vec::new(),
        Vec::new(),
    );
    shader.build();
    let mut material = Material::from_shader("mat".to_string(), &shader);
    let mut cols = [[0.0f32; 4]; 4];
    for c in 0..4 {
        for k in 0..4 {
            cols[c][k] = (4 * c + k) as f32;
        }
    }
    material.set_mat4("m4", cols.map(|c| c.map(|f| f.to_bits())));
    for c in 0..4 {
        for k in 0..4 {
            let off = 16 * c + 4 * k;
            assert_eq!(
                &material.uniform_bytes[off..off + 4],
                &cols[c][k].to_le_bytes()
            );
        }
    }
}

fn plain_2d_texture() -> Texture {
    Texture::from_bytes_2d(
        vec![10, 20, 30, 40],
        1,
        1,
        TextureFormat::Rgba8Unorm,
        false,
        SamplerDescriptor::default(),
    )
}

#[test]
fn set_texture_with_matching_kind_is_accepted() {
    let mut material = test_material();
    material.set_texture("base_color_tex", plain_2d_texture(), TextureKind::D2);
    assert_eq!(material.textures[0].2.pixels, vec![10, 20, 30, 40]);
}

#[test]
fn set_texture_with_mismatched_kind_is_rejected() {
    let mut material = test_material();
    material.set_texture("base_color_tex", plain_2d_texture(), TextureKind::D3);
    // the declared property is 2D, so the white placeholder stays
    assert_eq!(material.textures[0].2.pixels, vec![255, 255, 255, 255]);
}

#[test]
fn set_texture_with_unknown_name_is_rejected() {
    let mut material = test_material();
    material.set_texture("not_declared", plain_2d_texture(), TextureKind::D2);
    assert_eq!(material.textures.len(), 1);
    assert_eq!(material.textures[0].2.pixels, vec![255, 255, 255, 255]);
}

#[test]
fn update_before_build_fails() {
    let mut material = test_material();
    assert!(material.update().is_err());
}

#[test]
fn build_snapshots_bytes_and_update_pushes_new_ones() {
    let mut material = test_material();
    material.set_float("metallic_factor", 0.5f32.to_bits());
    material.build();
    let rg = material.resource_group.as_ref().unwrap();
    assert_eq!(&rg.uniform_bytes[16..20], &0.5f32.to_le_bytes());

    material.set_float("metallic_factor", 1.0f32.to_bits());
    // mutation does not auto-propagate into the snapshot
    let rg = material.resource_group.as_ref().unwrap();
    assert_eq!(&rg.uniform_bytes[16..20], &0.5f32.to_le_bytes());

    assert!(material.update().is_ok());
    let rg = material.resource_group.as_ref().unwrap();
    assert_eq!(&rg.uniform_bytes[16..20], &1.0f32.to_le_bytes());
}

#[test]
fn end_to_end_red_material_with_white_placeholder() {
    // a shader declaring [(Vec4, "base_color")] and a white-defaulted 2D
    // texture property, with only the color set, builds a resource group
    // whose first 16 uniform bytes encode [1, 0, 0, 1] and whose texture
    // binding holds the 1x1 white placeholder
    let mut shader = Shader::new(
        "simple".to_string(),
        vec![("base_color".to_string(), UniformProperty::Vec4)],
        vec![(
            "base_color_tex".to_string(),
            TextureProperty::Texture2D(TextureDefault::White),
        )],
        Vec::new(),
    );
    shader.build();
    let mut material = Material::from_shader("red".to_string(), &shader);
    material.set_vec4(
        "base_color",
        [1.0f32, 0.0, 0.0, 1.0].map(|f| f.to_bits()),
    );
    material.build();

    let rg = material.resource_group.as_ref().unwrap();
    let mut expected = Vec::new();
    for f in [1.0f32, 0.0, 0.0, 1.0] {
        expected.extend_from_slice(&f.to_le_bytes());
    }
    assert_eq!(&rg.uniform_bytes[..16], &expected[..]);

    assert_eq!(rg.entries.len(), 3);
    assert_eq!(rg.entries[0].binding, 0);
    assert!(matches!(rg.entries[0].resource, BindingResource::UniformBuffer));
    assert_eq!(rg.entries[1].binding, 1);
    match &rg.entries[1].resource {
        BindingResource::TextureView(t) => {
            assert_eq!(t.pixels, vec![255, 255, 255, 255]);
            assert_eq!(t.width, 1);
            assert_eq!(t.height, 1);
        }
        other => panic!("expected a texture view, got {:?}", other),
    }
    assert_eq!(rg.entries[2].binding, 2);
    assert!(matches!(
        rg.entries[2].resource,
        BindingResource::TextureSampler(_)
    ));
}
