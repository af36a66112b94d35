use render_core::graphics::BindingType;
use render_core::shader::{Shader, TextureProperty};
use render_core::texture::{TextureDefault, TextureKind};

fn shader_with_textures(props: Vec<(&str, TextureProperty)>) -> Shader {
    let list: Vec<(String, TextureProperty)> =
        props.into_iter().map(|(n, p)| (n.to_string(), p)).collect();
    let mut shader = Shader::new("tex_test".to_string(), Vec::new(), list, Vec::new());
    shader.build();
    shader
}

#[test]
fn texture_indices_are_dense_from_zero() {
    let shader = shader_with_textures(vec![
        ("base_color_tex", TextureProperty::Texture2D(TextureDefault::White)),
        ("noise_tex", TextureProperty::Texture3D),
        ("env_tex", TextureProperty::TextureCube),
    ]);
    assert_eq!(shader.get_texture_index("base_color_tex"), Some(0));
    assert_eq!(shader.get_texture_index("noise_tex"), Some(1));
    assert_eq!(shader.get_texture_index("env_tex"), Some(2));
    assert_eq!(shader.get_texture_index("absent"), None);
}

#[test]
fn layout_entries_pair_views_and_samplers() {
    let shader = shader_with_textures(vec![
        ("a", TextureProperty::Texture2D(TextureDefault::Black)),
        ("b", TextureProperty::TextureCube),
    ]);
    let entries = shader.bind_group_layout.as_ref().unwrap();
    assert_eq!(entries.len(), 5);
    assert_eq!(entries[0].binding, 0);
    assert!(matches!(entries[0].ty, BindingType::UniformBuffer));
    for i in 0..2u32 {
        let view = &entries[(1 + 2 * i) as usize];
        let sampler = &entries[(2 + 2 * i) as usize];
        assert_eq!(view.binding, 2 * i + 1);
        assert_eq!(sampler.binding, 2 * i + 2);
        assert!(matches!(sampler.ty, BindingType::Sampler));
    }
    assert!(matches!(
        entries[1].ty,
        BindingType::Texture { view_dimension: TextureKind::D2 }
    ));
    assert!(matches!(
        entries[3].ty,
        BindingType::Texture { view_dimension: TextureKind::Cube }
    ));
}

#[test]
fn binding_of_yields_view_slot() {
    let shader = shader_with_textures(vec![
        ("a", TextureProperty::Texture2D(TextureDefault::White)),
        ("b", TextureProperty::Texture3D),
    ]);
    assert_eq!(shader.binding_of("a"), Some(1));
    assert_eq!(shader.binding_of("b"), Some(3));
    assert_eq!(shader.binding_of("c"), None);
}

#[test]
fn default_value_only_for_2d_properties() {
    let shader = shader_with_textures(vec![
        ("a", TextureProperty::Texture2D(TextureDefault::Normal)),
        ("b", TextureProperty::TextureCube),
    ]);
    let placeholder = shader.default_value_for("a").unwrap();
    assert_eq!(placeholder.pixels, vec![128, 128, 255, 255]);
    assert_eq!(placeholder.width, 1);
    assert!(shader.default_value_for("b").is_none());
    assert!(shader.default_value_for("missing").is_none());
}

#[test]
fn texture_kind_of_each_property() {
    assert_eq!(
        TextureProperty::Texture2D(TextureDefault::Gray).kind(),
        TextureKind::D2
    );
    assert_eq!(TextureProperty::Texture3D.kind(), TextureKind::D3);
    assert_eq!(TextureProperty::TextureCube.kind(), TextureKind::Cube);
}
