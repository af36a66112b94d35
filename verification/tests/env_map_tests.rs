use render_core::env_map::{
    assemble_cube_faces, create_env_map, env_map_bind_entries, generate_mipmap_passes,
    irradiance_passes, mipmap_blit_passes, prefilter_passes, prefilter_roughness_numerator,
    EnvMap, EnvMapBinding,
};
use render_core::texture::{
    mip_level_count, mip_level_width, Texture, TextureFormat, TextureKind,
};

#[test]
fn mip_chain_has_log2_plus_one_levels() {
    assert_eq!(mip_level_count(1, 1), 1);
    assert_eq!(mip_level_count(2, 2), 2);
    assert_eq!(mip_level_count(64, 64), 7);
    assert_eq!(mip_level_count(100, 100), 7); // floor(log2(100)) + 1
    assert_eq!(mip_level_count(1024, 512), 11); // max of the two extents
    assert_eq!(mip_level_count(u32::MAX, 1), 32);
}

#[test]
fn mip_level_widths_halve_down_to_one() {
    let expected = [64u32, 32, 16, 8, 4, 2, 1];
    for (k, w) in expected.iter().enumerate() {
        assert_eq!(mip_level_width(64, k as u32), *w);
    }
    // past the end of the chain the width stays clamped to one pixel
    assert_eq!(mip_level_width(64, 9), 1);
    assert_eq!(mip_level_width(100, 6), 1);
}

#[test]
fn prefilter_roughness_is_j_sixths_clamped() {
    for j in 0u32..12 {
        assert_eq!(prefilter_roughness_numerator(j), j.min(6));
        let roughness = prefilter_roughness_numerator(j) as f32 / 6.0;
        assert_eq!(roughness, (j as f32 / 6.0).min(1.0));
    }
}

#[test]
fn prefilter_roughness_is_monotone_and_saturates() {
    let mut last = 0u32;
    for j in 0u32..40 {
        let r = prefilter_roughness_numerator(j);
        assert!(r >= last, "roughness decreased at level {}", j);
        last = r;
    }
    assert_eq!(prefilter_roughness_numerator(6), 6);
    assert_eq!(prefilter_roughness_numerator(39), 6);
}

#[test]
fn prefilter_schedule_covers_every_level_and_face() {
    let passes = prefilter_passes(8);
    assert_eq!(passes.len(), 48);
    for (k, pass) in passes.iter().enumerate() {
        assert_eq!(pass.level, (k / 6) as u32);
        assert_eq!(pass.face, (k % 6) as u32);
        assert_eq!(pass.roughness_sixths, ((k / 6) as u32).min(6));
    }
}

#[test]
fn blit_schedule_covers_layers_and_levels() {
    let passes = mipmap_blit_passes(6, 3);
    assert_eq!(passes.len(), 12);
    for (k, pass) in passes.iter().enumerate() {
        assert_eq!(pass.layer, (k / 2) as u32);
        assert_eq!(pass.target_level, (1 + k % 2) as u32);
    }
    assert!(mipmap_blit_passes(6, 1).is_empty());
}

#[test]
fn mipmap_schedule_from_a_texture_uses_its_extent() {
    let cube = Texture::render_target_cube(4, TextureFormat::Rgba8UnormSrgb, true);
    let passes = generate_mipmap_passes(&cube);
    // 6 layers, 3 levels: two blits per layer
    assert_eq!(passes.len(), 12);
    assert_eq!(passes[0].layer, 0);
    assert_eq!(passes[0].target_level, 1);
    assert_eq!(passes[11].layer, 5);
    assert_eq!(passes[11].target_level, 2);
}

#[test]
fn irradiance_schedule_is_one_pass_per_face() {
    assert_eq!(irradiance_passes(), vec![0, 1, 2, 3, 4, 5]);
}

#[test]
fn scene_bindings_are_in_fixed_slot_order() {
    let entries = env_map_bind_entries();
    let expected = [
        EnvMapBinding::CubemapView,
        EnvMapBinding::CubemapSampler,
        EnvMapBinding::IrradianceView,
        EnvMapBinding::IrradianceSampler,
        EnvMapBinding::PrefilteredView,
        EnvMapBinding::PrefilteredSampler,
        EnvMapBinding::BrdfLutView,
        EnvMapBinding::BrdfLutSampler,
    ];
    assert_eq!(entries.len(), 8);
    for (i, (binding, what)) in entries.iter().enumerate() {
        assert_eq!(*binding, i as u32);
        assert_eq!(*what, expected[i]);
    }
}

#[test]
fn default_env_map_uses_flat_color_cubes() {
    let env: EnvMap = Default::default();
    for tex in [&env.cubemap, &env.irradiance, &env.prefiltered] {
        assert_eq!(tex.kind, TextureKind::Cube);
        assert_eq!(tex.width, 1);
        assert_eq!(tex.depth, 6);
        assert_eq!(tex.mip_level_count, 1);
        assert_eq!(tex.pixels.len(), 24);
    }
    // the +X face of the fallback cube is red
    assert_eq!(&env.cubemap.pixels[..4], &[255, 0, 0, 255]);
    assert_eq!(env.bind_entries.len(), 8);
}

#[test]
fn created_env_map_has_full_mip_chains() {
    let width = 8u32;
    let bytes = vec![0u8; (6 * width * width * 4) as usize];
    let env = create_env_map(bytes, width, TextureFormat::Rgba8UnormSrgb);
    assert_eq!(env.cubemap.mip_level_count, 4);
    assert_eq!(env.irradiance.mip_level_count, 4);
    assert_eq!(env.prefiltered.mip_level_count, 4);
    assert_eq!(env.cubemap.width, 8);
    assert_eq!(env.cubemap.depth, 6);
    assert_eq!(env.irradiance.pixels.len(), 0);
    assert_eq!(env.prefiltered.pixels.len(), 0);
}

#[test]
fn cube_faces_concatenate_in_face_order() {
    let faces = vec![
        vec![1u8, 1],
        vec![2, 2],
        vec![3, 3],
        vec![4, 4],
        vec![5, 5],
        vec![6, 6],
    ];
    let bytes = assemble_cube_faces(&faces);
    assert_eq!(bytes, vec![1, 1, 2, 2, 3, 3, 4, 4, 5, 5, 6, 6]);
}

#[test]
fn render_target_cube_texture_shape() {
    let t = Texture::render_target_cube(16, TextureFormat::Rgba8UnormSrgb, true);
    assert_eq!(t.kind, TextureKind::Cube);
    assert_eq!(t.width, 16);
    assert_eq!(t.height, 16);
    assert_eq!(t.depth, 6);
    assert_eq!(t.mip_level_count, 5);
    let flat = Texture::render_target_cube(16, TextureFormat::Rgba8UnormSrgb, false);
    assert_eq!(flat.mip_level_count, 1);
}
