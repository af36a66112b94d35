use render_core::image_data::{rgb16_to_rgba16, rgb8_to_rgba8};
use render_core::texture::{SamplerDescriptor, Texture, TextureDefault, TextureFormat};

#[test]
fn rgb8_gains_opaque_alpha() {
    let rgb = [10u8, 20, 30, 40, 50, 60];
    let rgba = rgb8_to_rgba8(&rgb, 2);
    assert_eq!(rgba, vec![10, 20, 30, 255, 40, 50, 60, 255]);
}

#[test]
fn rgb8_with_zero_pixels_is_empty() {
    let rgba = rgb8_to_rgba8(&[], 0);
    assert!(rgba.is_empty());
}

#[test]
fn rgb16_gains_half_float_one_alpha() {
    let rgb: Vec<u8> = (1u8..=12).collect();
    let rgba = rgb16_to_rgba16(&rgb, 2);
    assert_eq!(
        rgba,
        vec![1, 2, 3, 4, 5, 6, 0, 60, 7, 8, 9, 10, 11, 12, 0, 60]
    );
    // 0x3C00 is the half-float encoding of 1.0, little-endian [0x00, 0x3C]
    assert_eq!(rgba[6], 0x00);
    assert_eq!(rgba[7], 0x3C);
}

#[test]
fn placeholder_textures_hold_their_colors() {
    assert_eq!(Texture::white1x1().pixels, vec![255, 255, 255, 255]);
    assert_eq!(Texture::black1x1().pixels, vec![0, 0, 0, 255]);
    assert_eq!(Texture::gray1x1().pixels, vec![128, 128, 128, 255]);
    assert_eq!(Texture::normal1x1().pixels, vec![128, 128, 255, 255]);
    let white = Texture::white1x1();
    assert_eq!(white.width, 1);
    assert_eq!(white.height, 1);
    assert_eq!(white.mip_level_count, 1);
    let _ = TextureDefault::White;
}

#[test]
fn volume_placeholder_is_black() {
    let t = Texture::black1x1x1();
    assert_eq!(t.pixels, vec![0, 0, 0, 255]);
    assert_eq!(t.depth, 1);
}

#[test]
fn from_bytes_2d_with_mipmaps_counts_levels() {
    let bytes = vec![0u8; 32 * 16 * 4];
    let t = Texture::from_bytes_2d(
        bytes,
        32,
        16,
        TextureFormat::Rgba8Unorm,
        true,
        SamplerDescriptor::default(),
    );
    assert_eq!(t.mip_level_count, 6); // floor(log2(32)) + 1
    assert_eq!(t.depth, 1);
}

#[test]
fn depth_stencil_texture_matches_surface() {
    let t = Texture::depth_stencil_texture(800, 600);
    assert_eq!(t.format, TextureFormat::Depth24PlusStencil8);
    assert_eq!(t.width, 800);
    assert_eq!(t.height, 600);
    assert_eq!(t.mip_level_count, 1);
    assert!(t.sampler.compare.is_some());
}

#[test]
fn block_sizes_per_format() {
    assert_eq!(TextureFormat::R8Unorm.block_size(), 1);
    assert_eq!(TextureFormat::Rg8Unorm.block_size(), 2);
    assert_eq!(TextureFormat::Rgba8Unorm.block_size(), 4);
    assert_eq!(TextureFormat::Rgba16Float.block_size(), 8);
    assert_eq!(TextureFormat::R16Float.block_size(), 2);
}
