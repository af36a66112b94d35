use render_core::shader::{Shader, UniformProperty};

fn shader_with_props(props: Vec<(&str, UniformProperty)>) -> Shader {
    let list: Vec<(String, UniformProperty)> =
        props.into_iter().map(|(n, p)| (n.to_string(), p)).collect();
    let mut shader = Shader::new("test".to_string(), list, Vec::new(), Vec::new());
    shader.build();
    shader
}

#[test]
fn sizes_match_gpu_packing_rules() {
    assert_eq!(UniformProperty::Float.size(), 4);
    assert_eq!(UniformProperty::Vec2.size(), 8);
    assert_eq!(UniformProperty::Vec3.size(), 12);
    assert_eq!(UniformProperty::Vec4.size(), 16);
    assert_eq!(UniformProperty::Mat3.size(), 48);
    assert_eq!(UniformProperty::Mat4.size(), 64);
}

#[test]
fn alignments_match_gpu_packing_rules() {
    assert_eq!(UniformProperty::Float.align(), 4);
    assert_eq!(UniformProperty::Vec2.align(), 8);
    assert_eq!(UniformProperty::Vec3.align(), 16);
    assert_eq!(UniformProperty::Vec4.align(), 16);
    assert_eq!(UniformProperty::Mat3.align(), 16);
    assert_eq!(UniformProperty::Mat4.align(), 16);
}

#[test]
fn vec3_float_vec4_example_layout() {
    let shader = shader_with_props(vec![
        ("a", UniformProperty::Vec3),
        ("b", UniformProperty::Float),
        ("c", UniformProperty::Vec4),
    ]);
    assert_eq!(shader.get_uniform_offset("a"), Some(0));
    assert_eq!(shader.get_uniform_offset("b"), Some(12));
    assert_eq!(shader.get_uniform_offset("c"), Some(16));
    assert_eq!(shader.uniform_size, 32);
}

#[test]
fn layout_is_deterministic() {
    let s1 = shader_with_props(vec![
        ("x", UniformProperty::Mat3),
        ("y", UniformProperty::Vec2),
        ("z", UniformProperty::Mat4),
    ]);
    let s2 = shader_with_props(vec![
        ("x", UniformProperty::Mat3),
        ("y", UniformProperty::Vec2),
        ("z", UniformProperty::Mat4),
    ]);
    assert_eq!(s1.uniform_offsets, s2.uniform_offsets);
    assert_eq!(s1.uniform_size, s2.uniform_size);
}

#[test]
fn offsets_are_aligned_and_monotone() {
    let props = vec![
        ("a", UniformProperty::Float),
        ("b", UniformProperty::Vec3),
        ("c", UniformProperty::Float),
        ("d", UniformProperty::Vec2),
        ("e", UniformProperty::Mat3),
        ("f", UniformProperty::Float),
        ("g", UniformProperty::Mat4),
    ];
    let shader = shader_with_props(props.clone());
    let mut prev_end = 0usize;
    for (i, (_, p)) in props.iter().enumerate() {
        let off = shader.uniform_offsets[i];
        assert_eq!(off % p.align(), 0, "offset {} misaligned for entry {}", off, i);
        assert!(off >= prev_end, "offset {} overlaps previous end {}", off, prev_end);
        prev_end = off + p.size();
    }
    assert_eq!(shader.uniform_size % 16, 0);
    assert!(shader.uniform_size >= prev_end);
}

#[test]
fn empty_property_list_has_zero_size() {
    let shader = shader_with_props(vec![]);
    assert_eq!(shader.uniform_size, 0);
    assert_eq!(shader.get_uniform_offset("missing"), None);
}

#[test]
fn unbuilt_shader_yields_no_offsets() {
    let shader = Shader::new(
        "raw".to_string(),
        vec![("a".to_string(), UniformProperty::Vec4)],
        Vec::new(),
        Vec::new(),
    );
    assert_eq!(shader.get_uniform_offset("a"), None);
    assert_eq!(shader.uniform_size, 0);
}

#[test]
fn float_after_mat3_lands_after_padded_columns() {
    let shader = shader_with_props(vec![
        ("m", UniformProperty::Mat3),
        ("f", UniformProperty::Float),
    ]);
    assert_eq!(shader.get_uniform_offset("m"), Some(0));
    assert_eq!(shader.get_uniform_offset("f"), Some(48));
    assert_eq!(shader.uniform_size, 64);
}
