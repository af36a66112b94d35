//! Plain-data textures: dimensions, format, sampler settings, mip counts and
//! (for CPU-initialized textures) the raw pixel bytes. A GPU device consumes
//! these records to create the actual resources.

use vstd::prelude::*;

use vstd::arithmetic::power2::lemma2_to64;
use vstd::arithmetic::power2::lemma_pow2_adds;
use vstd::arithmetic::power2::lemma_pow2_pos;
use vstd::arithmetic::power2::lemma_pow2_strictly_increases;
use vstd::arithmetic::power2::pow2;
use vstd::bits::lemma_u32_shr_is_div;

use crate::state::CompareFunction;

verus! {

/// The dimensionality of a texture.
#[derive(Clone, Copy, Debug, PartialEq, Eq, Structural)]
pub enum TextureKind {
    D2,
    D3,
    Cube,
}

/// The pixel formats the renderer uses.
#[derive(Clone, Copy, Debug, PartialEq, Eq, Structural)]
pub enum TextureFormat {
    R8Unorm,
    Rg8Unorm,
    Rgba8Unorm,
    Rgba8UnormSrgb,
    Bgra8Unorm,
    Bgra8UnormSrgb,
    R16Float,
    Rg16Float,
    Rgba16Float,
    Depth24PlusStencil8,
}

impl TextureFormat {
    /// Bytes one pixel occupies in this format.
    pub open spec fn spec_block_size(self) -> int {
        match self {
            TextureFormat::R8Unorm => 1,
            TextureFormat::Rg8Unorm => 2,
            TextureFormat::Rgba8Unorm => 4,
            TextureFormat::Rgba8UnormSrgb => 4,
            TextureFormat::Bgra8Unorm => 4,
            TextureFormat::Bgra8UnormSrgb => 4,
            TextureFormat::R16Float => 2,
            TextureFormat::Rg16Float => 4,
            TextureFormat::Rgba16Float => 8,
            TextureFormat::Depth24PlusStencil8 => 4,
        }
    }

    /// Bytes one pixel occupies in this format.
    pub fn block_size(&self) -> (r: u32)
        ensures
            r == self.spec_block_size(),
    {
        match self {
            TextureFormat::R8Unorm => 1,
            TextureFormat::Rg8Unorm => 2,
            TextureFormat::Rgba8Unorm => 4,
            TextureFormat::Rgba8UnormSrgb => 4,
            TextureFormat::Bgra8Unorm => 4,
            TextureFormat::Bgra8UnormSrgb => 4,
            TextureFormat::R16Float => 2,
            TextureFormat::Rg16Float => 4,
            TextureFormat::Rgba16Float => 8,
            TextureFormat::Depth24PlusStencil8 => 4,
        }
    }
}

/// How sampling beyond a texture edge behaves.
#[derive(Clone, Copy, Debug, PartialEq, Eq, Structural)]
pub enum AddressMode {
    ClampToEdge,
    MirrorRepeat,
    Repeat,
}

/// Texel filtering when magnifying, minifying or blending mips.
#[derive(Clone, Copy, Debug, PartialEq, Eq, Structural)]
pub enum FilterMode {
    Nearest,
    Linear,
}

/// The sampler settings attached to a texture.
#[derive(Clone, Copy, Debug, PartialEq, Eq, Structural)]
pub struct SamplerDescriptor {
    pub address_mode_u: AddressMode,
    pub address_mode_v: AddressMode,
    pub address_mode_w: AddressMode,
    pub mag_filter: FilterMode,
    pub min_filter: FilterMode,
    pub mipmap_filter: FilterMode,
    pub compare: Option<CompareFunction>,
}

impl SamplerDescriptor {
    /// The plain sampler: clamp at every edge, nearest filtering, no
    /// comparison.
    pub open spec fn spec_default() -> SamplerDescriptor {
        SamplerDescriptor {
            address_mode_u: AddressMode::ClampToEdge,
            address_mode_v: AddressMode::ClampToEdge,
            address_mode_w: AddressMode::ClampToEdge,
            mag_filter: FilterMode::Nearest,
            min_filter: FilterMode::Nearest,
            mipmap_filter: FilterMode::Nearest,
            compare: None,
        }
    }

    /// Clamped sampler with linear mag/min filtering and the given mip
    /// filter, as the environment-map textures use.
    pub open spec fn spec_clamped_linear(mipmap_filter: FilterMode) -> SamplerDescriptor {
        SamplerDescriptor {
            address_mode_u: AddressMode::ClampToEdge,
            address_mode_v: AddressMode::ClampToEdge,
            address_mode_w: AddressMode::ClampToEdge,
            mag_filter: FilterMode::Linear,
            min_filter: FilterMode::Linear,
            mipmap_filter,
            compare: None,
        }
    }

    /// Clamped sampler with linear mag/min filtering and the given mip
    /// filter.
    pub fn clamped_linear(mipmap_filter: FilterMode) -> (r: SamplerDescriptor)
        ensures
            r == SamplerDescriptor::spec_clamped_linear(mipmap_filter),
    {
        SamplerDescriptor {
            address_mode_u: AddressMode::ClampToEdge,
            address_mode_v: AddressMode::ClampToEdge,
            address_mode_w: AddressMode::ClampToEdge,
            mag_filter: FilterMode::Linear,
            min_filter: FilterMode::Linear,
            mipmap_filter,
            compare: None,
        }
    }
}

impl Default for SamplerDescriptor {
    fn default() -> (r: SamplerDescriptor)
        ensures
            r == SamplerDescriptor::spec_default(),
    {
        SamplerDescriptor {
            address_mode_u: AddressMode::ClampToEdge,
            address_mode_v: AddressMode::ClampToEdge,
            address_mode_w: AddressMode::ClampToEdge,
            mag_filter: FilterMode::Nearest,
            min_filter: FilterMode::Nearest,
            mipmap_filter: FilterMode::Nearest,
            compare: None,
        }
    }
}

/// Number of levels in a full mip chain over a base extent of `n`:
/// one level per halving, plus the base level.
pub open spec fn spec_mip_count(n: nat) -> nat
    decreases n,
{
    if n <= 1 {
        1
    } else {
        1 + spec_mip_count(n / 2)
    }
}

/// The width of mip level `k` over a base width of `w`: half per level,
/// never below one pixel.
pub open spec fn spec_mip_width(w: nat, k: nat) -> nat {
    if w / pow2(k) == 0 {
        1
    } else {
        w / pow2(k)
    }
}

/// The mip count of `n >= 1` brackets `n` between consecutive powers of two:
/// a chain of `L` levels exists exactly when `2^(L-1) <= n < 2^L`, which is
/// `L == floor(log2(n)) + 1`.
pub proof fn lemma_mip_count_bounds(n: nat)
    requires
        n >= 1,
    ensures
        spec_mip_count(n) >= 1,
        pow2((spec_mip_count(n) - 1) as nat) <= n < pow2(spec_mip_count(n)),
    decreases n,
{
    if n <= 1 {
        lemma2_to64();
    } else {
        lemma_mip_count_bounds(n / 2);
        let c = spec_mip_count(n / 2);
        lemma_pow2_adds((c - 1) as nat, 1);
        lemma_pow2_adds(c, 1);
        lemma2_to64();
        assert(n / 2 * 2 <= n < (n / 2 + 1) * 2) by (nonlinear_arith)
            requires
                n >= 2,
        ;
        assert(pow2((c - 1) as nat) * 2 <= (n / 2) * 2) by (nonlinear_arith)
            requires
                pow2((c - 1) as nat) <= n / 2,
        ;
        assert((n / 2 + 1) * 2 <= pow2(c) * 2) by (nonlinear_arith)
            requires
                n / 2 + 1 <= pow2(c),
        ;
    }
}

/// A base extent that fits in a `u32` has at most 32 mip levels.
pub proof fn lemma_mip_count_le_32(n: nat)
    requires
        1 <= n <= u32::MAX,
    ensures
        1 <= spec_mip_count(n) <= 32,
{
    lemma_mip_count_bounds(n);
    if spec_mip_count(n) > 32 {
        lemma2_to64();
        if (spec_mip_count(n) - 1) as nat > 32 {
            lemma_pow2_strictly_increases(32, (spec_mip_count(n) - 1) as nat);
        }
        assert(false);
    }
}

/// Completeness of the mip chain over a base extent `w`: the final level is
/// exactly one pixel, every earlier level is strictly wider, and levels
/// halve step by step.
pub proof fn lemma_mip_chain_complete(w: nat)
    requires
        w >= 1,
    ensures
        spec_mip_width(w, (spec_mip_count(w) - 1) as nat) == 1,
        forall|k: nat| k + 1 < spec_mip_count(w) ==> #[trigger] spec_mip_width(w, k) >= 2,
        forall|k: nat| #[trigger] spec_mip_width(w, k + 1) == if spec_mip_width(w, k) / 2 == 0 {
            1nat
        } else {
            spec_mip_width(w, k) / 2
        },
{
    let c = spec_mip_count(w);
    lemma_mip_count_bounds(w);
    assert(spec_mip_width(w, (c - 1) as nat) == 1) by {
        lemma_pow2_pos((c - 1) as nat);
        assert(pow2(c) == 2 * pow2((c - 1) as nat)) by {
            lemma_pow2_adds((c - 1) as nat, 1);
            lemma2_to64();
        }
        assert(w / pow2((c - 1) as nat) == 1) by (nonlinear_arith)
            requires
                pow2((c - 1) as nat) <= w < pow2(c),
                pow2(c) == 2 * pow2((c - 1) as nat),
                pow2((c - 1) as nat) >= 1,
        ;
    }
    assert forall|k: nat| k + 1 < c implies #[trigger] spec_mip_width(w, k) >= 2 by {
        lemma_pow2_pos(k);
        lemma_pow2_adds(k, 1);
        lemma2_to64();
        if k + 1 < c - 1 {
            lemma_pow2_strictly_increases((k + 1) as nat, (c - 1) as nat);
        }
        assert(pow2((k + 1) as nat) <= w);
        assert(w / pow2(k) >= 2) by (nonlinear_arith)
            requires
                pow2(k) * 2 <= w,
                pow2(k) >= 1,
        ;
    }
    assert forall|k: nat| #[trigger] spec_mip_width(w, k + 1) == if spec_mip_width(w, k) / 2 == 0 {
        1nat
    } else {
        spec_mip_width(w, k) / 2
    } by {
        lemma_pow2_pos(k);
        lemma_pow2_adds(k, 1);
        lemma2_to64();
        assert(w / pow2((k + 1) as nat) == (w / pow2(k)) / 2) by (nonlinear_arith)
            requires
                pow2((k + 1) as nat) == pow2(k) * 2,
                pow2(k) >= 1,
        ;
    }
}

/// Number of levels in the full mip chain over a `width x height` base:
/// `floor(log2(max(width, height))) + 1`.
pub fn mip_level_count(width: u32, height: u32) -> (r: u32)
    requires
        width >= 1,
        height >= 1,
    ensures
        r == spec_mip_count(if width >= height {
            width as nat
        } else {
            height as nat
        }),
        1 <= r <= 32,
{
    let m: u32 = if width >= height {
        width
    } else {
        height
    };
    proof {
        lemma_mip_count_le_32(m as nat);
    }
    let mut v: u32 = m;
    let mut c: u32 = 0;
    while v > 1
        invariant
            1 <= v <= m,
            spec_mip_count(m as nat) == c + spec_mip_count(v as nat),
            c <= 31,
        decreases v,
    {
        proof {
            lemma_mip_count_le_32(m as nat);
            assert(spec_mip_count(v as nat) == 1 + spec_mip_count((v / 2) as nat));
            assert(spec_mip_count((v / 2) as nat) >= 1);
        }
        v = v / 2;
        c = c + 1;
    }
    c + 1
}

/// The width of mip level `level` over a base width `width`: the base width
/// halved `level` times, never below one pixel.
pub fn mip_level_width(width: u32, level: u32) -> (r: u32)
    requires
        level < 32,
    ensures
        r == spec_mip_width(width as nat, level as nat),
        r >= 1,
{
    proof {
        lemma_u32_shr_is_div(width, level);
    }
    let shifted = width >> level;
    if shifted == 0 {
        1
    } else {
        shifted
    }
}

/// A texture as plain data: its shape, format, mip count, sampler settings,
/// and (when initialized from the CPU) its level-0 pixel bytes in row-major
/// face-after-face order. Render-target textures carry no pixel bytes.
#[derive(Clone, Debug)]
pub struct Texture {
    pub kind: TextureKind,
    pub format: TextureFormat,
    pub width: u32,
    pub height: u32,
    pub depth: u32,
    pub mip_level_count: u32,
    pub pixels: Vec<u8>,
    pub sampler: SamplerDescriptor,
}

/// Whether two textures describe the same resource: every field equal,
/// pixel bytes compared by content.
pub open spec fn texture_eq(a: Texture, b: Texture) -> bool {
    &&& a.kind == b.kind
    &&& a.format == b.format
    &&& a.width == b.width
    &&& a.height == b.height
    &&& a.depth == b.depth
    &&& a.mip_level_count == b.mip_level_count
    &&& a.pixels@ == b.pixels@
    &&& a.sampler == b.sampler
}

/// The four placeholder colors a 2D texture property may default to.
#[derive(Clone, Copy, Debug, PartialEq, Eq, Structural)]
pub enum TextureDefault {
    White,
    Black,
    Gray,
    Normal,
}

/// The RGBA8 bytes of the 1x1 placeholder for each default color.
pub open spec fn spec_placeholder_pixels(d: TextureDefault) -> Seq<u8> {
    match d {
        TextureDefault::White => seq![255u8, 255u8, 255u8, 255u8],
        TextureDefault::Black => seq![0u8, 0u8, 0u8, 255u8],
        TextureDefault::Gray => seq![128u8, 128u8, 128u8, 255u8],
        TextureDefault::Normal => seq![128u8, 128u8, 255u8, 255u8],
    }
}

/// A four-byte RGBA pixel as a vector.
fn rgba_pixel(r: u8, g: u8, b: u8, a: u8) -> (v: Vec<u8>)
    ensures
        v@ == seq![r, g, b, a],
{
    let mut v: Vec<u8> = Vec::new();
    v.push(r);
    v.push(g);
    v.push(b);
    v.push(a);
    proof {
        assert(v@ =~= seq![r, g, b, a]);
    }
    v
}

impl Texture {
    /// A 2D texture initialized from raw pixel bytes. The byte buffer must
    /// hold exactly one full level-0 image; validating that is the caller's
    /// responsibility, as is passing a nonzero extent.
    pub fn from_bytes_2d(
        bytes: Vec<u8>,
        width: u32,
        height: u32,
        format: TextureFormat,
        mipmap: bool,
        sampler: SamplerDescriptor,
    ) -> (t: Texture)
        requires
            width >= 1,
            height >= 1,
            bytes@.len() == width * height * format.spec_block_size(),
        ensures
            t.kind == TextureKind::D2,
            t.format == format,
            t.width == width,
            t.height == height,
            t.depth == 1,
            t.pixels == bytes,
            t.sampler == sampler,
            t.mip_level_count == if mipmap {
                spec_mip_count(if width >= height {
                    width as nat
                } else {
                    height as nat
                })
            } else {
                1nat
            },
    {
        let mip_levels = if mipmap {
            mip_level_count(width, height)
        } else {
            1
        };
        Texture {
            kind: TextureKind::D2,
            format,
            width,
            height,
            depth: 1,
            mip_level_count: mip_levels,
            pixels: bytes,
            sampler,
        }
    }

    /// A cube texture initialized from raw pixel bytes: six square faces of
    /// side `width`, in the order +X, -X, +Y, -Y, +Z, -Z. The mip count is
    /// derived from one face's extent.
    pub fn from_bytes_cube(
        bytes: Vec<u8>,
        width: u32,
        format: TextureFormat,
        mipmap: bool,
        sampler: SamplerDescriptor,
    ) -> (t: Texture)
        requires
            width >= 1,
            bytes@.len() == 6 * width * width * format.spec_block_size(),
        ensures
            t.kind == TextureKind::Cube,
            t.format == format,
            t.width == width,
            t.height == width,
            t.depth == 6,
            t.pixels == bytes,
            t.sampler == sampler,
            t.mip_level_count == if mipmap {
                spec_mip_count(width as nat)
            } else {
                1nat
            },
    {
        let mip_levels = if mipmap {
            mip_level_count(width, width)
        } else {
            1
        };
        Texture {
            kind: TextureKind::Cube,
            format,
            width,
            height: width,
            depth: 6,
            mip_level_count: mip_levels,
            pixels: bytes,
            sampler,
        }
    }

    /// A 3D texture initialized from raw pixel bytes, depth-slice after
    /// depth-slice.
    pub fn from_bytes_3d(
        bytes: Vec<u8>,
        width: u32,
        height: u32,
        depth: u32,
        format: TextureFormat,
        mipmap: bool,
        sampler: SamplerDescriptor,
    ) -> (t: Texture)
        requires
            width >= 1,
            height >= 1,
            depth >= 1,
            bytes@.len() == width * height * depth * format.spec_block_size(),
        ensures
            t.kind == TextureKind::D3,
            t.format == format,
            t.width == width,
            t.height == height,
            t.depth == depth,
            t.pixels == bytes,
            t.sampler == sampler,
            t.mip_level_count == if mipmap {
                spec_mip_count(
                    if (if width >= height {
                        width
                    } else {
                        height
                    }) >= depth {
                        (if width >= height {
                            width
                        } else {
                            height
                        }) as nat
                    } else {
                        depth as nat
                    },
                )
            } else {
                1nat
            },
    {
        let wh = if width >= height {
            width
        } else {
            height
        };
        let mip_levels = if mipmap {
            mip_level_count(wh, depth)
        } else {
            1
        };
        Texture {
            kind: TextureKind::D3,
            format,
            width,
            height,
            depth,
            mip_level_count: mip_levels,
            pixels: bytes,
            sampler,
        }
    }

    /// An uninitialized cube render target of side `width`, with a full mip
    /// chain when `mipmap` is set, sampled clamped and fully linear.
    pub fn render_target_cube(width: u32, format: TextureFormat, mipmap: bool) -> (t: Texture)
        requires
            width >= 1,
        ensures
            t.kind == TextureKind::Cube,
            t.format == format,
            t.width == width,
            t.height == width,
            t.depth == 6,
            t.pixels@ == Seq::<u8>::empty(),
            t.sampler == SamplerDescriptor::spec_clamped_linear(FilterMode::Linear),
            t.mip_level_count == if mipmap {
                spec_mip_count(width as nat)
            } else {
                1nat
            },
    {
        let mip_levels = if mipmap {
            mip_level_count(width, width)
        } else {
            1
        };
        let pixels: Vec<u8> = Vec::new();
        Texture {
            kind: TextureKind::Cube,
            format,
            width,
            height: width,
            depth: 6,
            mip_level_count: mip_levels,
            pixels,
            sampler: SamplerDescriptor::clamped_linear(FilterMode::Linear),
        }
    }

    /// The depth-stencil attachment matching a surface of the given size:
    /// one level, clamped, linear mag/min filtering, less-equal comparison.
    pub fn depth_stencil_texture(width: u32, height: u32) -> (t: Texture)
        requires
            width >= 1,
            height >= 1,
        ensures
            t.kind == TextureKind::D2,
            t.format == TextureFormat::Depth24PlusStencil8,
            t.width == width,
            t.height == height,
            t.depth == 1,
            t.mip_level_count == 1,
            t.pixels@ == Seq::<u8>::empty(),
            t.sampler == (SamplerDescriptor {
                compare: Some(CompareFunction::LessEqual),
                ..SamplerDescriptor::spec_clamped_linear(FilterMode::Nearest)
            }),
    {
        let pixels: Vec<u8> = Vec::new();
        let mut sampler = SamplerDescriptor::clamped_linear(FilterMode::Nearest);
        sampler.compare = Some(CompareFunction::LessEqual);
        Texture {
            kind: TextureKind::D2,
            format: TextureFormat::Depth24PlusStencil8,
            width,
            height,
            depth: 1,
            mip_level_count: 1,
            pixels,
            sampler,
        }
    }

    /// Whether `self` is the 1x1 placeholder of the given default color:
    /// one RGBA8 pixel, no mips, plain sampler.
    pub open spec fn is_placeholder_1x1(self, d: TextureDefault) -> bool {
        &&& self.kind == TextureKind::D2
        &&& self.format == TextureFormat::Rgba8Unorm
        &&& self.width == 1
        &&& self.height == 1
        &&& self.depth == 1
        &&& self.mip_level_count == 1
        &&& self.pixels@ == spec_placeholder_pixels(d)
        &&& self.sampler == SamplerDescriptor::spec_default()
    }

    /// The 1x1 white placeholder.
    pub fn white1x1() -> (t: Texture)
        ensures
            t.is_placeholder_1x1(TextureDefault::White),
    {
        Texture::placeholder_1x1_impl(255, 255, 255, 255)
    }

    /// The 1x1 black placeholder.
    pub fn black1x1() -> (t: Texture)
        ensures
            t.is_placeholder_1x1(TextureDefault::Black),
    {
        Texture::placeholder_1x1_impl(0, 0, 0, 255)
    }

    /// The 1x1 gray placeholder.
    pub fn gray1x1() -> (t: Texture)
        ensures
            t.is_placeholder_1x1(TextureDefault::Gray),
    {
        Texture::placeholder_1x1_impl(128, 128, 128, 255)
    }

    /// The 1x1 flat-normal placeholder.
    pub fn normal1x1() -> (t: Texture)
        ensures
            t.is_placeholder_1x1(TextureDefault::Normal),
    {
        Texture::placeholder_1x1_impl(128, 128, 255, 255)
    }

    /// The bytes of the six one-pixel faces of the fallback cube map:
    /// red, cyan, green, magenta, blue, yellow in +X, -X, +Y, -Y, +Z, -Z
    /// order.
    pub open spec fn spec_default_cube_pixels() -> Seq<u8> {
        seq![
            255u8, 0u8, 0u8, 255u8,
            0u8, 255u8, 255u8, 255u8,
            0u8, 255u8, 0u8, 255u8,
            255u8, 0u8, 255u8, 255u8,
            0u8, 0u8, 255u8, 255u8,
            255u8, 255u8, 0u8, 255u8,
        ]
    }

    /// The fallback cube map: one distinctly colored pixel per face.
    pub fn default_cube() -> (t: Texture)
        ensures
            t.kind == TextureKind::Cube,
            t.format == TextureFormat::Rgba8Unorm,
            t.width == 1,
            t.height == 1,
            t.depth == 6,
            t.mip_level_count == 1,
            t.pixels@ == Texture::spec_default_cube_pixels(),
            t.sampler == SamplerDescriptor::spec_default(),
    {
        let mut bytes: Vec<u8> = Vec::new();
        bytes.push(255);
        bytes.push(0);
        bytes.push(0);
        bytes.push(255);
        bytes.push(0);
        bytes.push(255);
        bytes.push(255);
        bytes.push(255);
        bytes.push(0);
        bytes.push(255);
        bytes.push(0);
        bytes.push(255);
        bytes.push(255);
        bytes.push(0);
        bytes.push(255);
        bytes.push(255);
        bytes.push(0);
        bytes.push(0);
        bytes.push(255);
        bytes.push(255);
        bytes.push(255);
        bytes.push(255);
        bytes.push(0);
        bytes.push(255);
        proof {
            assert(bytes@ =~= Texture::spec_default_cube_pixels());
        }
        Texture::from_bytes_cube(
            bytes,
            1,
            TextureFormat::Rgba8Unorm,
            false,
            SamplerDescriptor::default(),
        )
    }

    /// The 1x1x1 black placeholder volume.
    pub fn black1x1x1() -> (t: Texture)
        ensures
            t.kind == TextureKind::D3,
            t.format == TextureFormat::Rgba8Unorm,
            t.width == 1,
            t.height == 1,
            t.depth == 1,
            t.mip_level_count == 1,
            t.pixels@ == spec_placeholder_pixels(TextureDefault::Black),
            t.sampler == SamplerDescriptor::spec_default(),
    {
        Texture::from_bytes_3d(
            rgba_pixel(0, 0, 0, 255),
            1,
            1,
            1,
            TextureFormat::Rgba8Unorm,
            false,
            SamplerDescriptor::default(),
        )
    }

    /// A content-equal copy of this texture.
    pub fn duplicate(&self) -> (r: Texture)
        ensures
            texture_eq(r, *self),
    {
        Texture {
            kind: self.kind,
            format: self.format,
            width: self.width,
            height: self.height,
            depth: self.depth,
            mip_level_count: self.mip_level_count,
            pixels: crate::bytes::copy_bytes(&self.pixels),
            sampler: self.sampler,
        }
    }

    /// The 1x1 RGBA8 texture holding one pixel.
    fn placeholder_1x1_impl(r: u8, g: u8, b: u8, a: u8) -> (t: Texture)
        ensures
            t.kind == TextureKind::D2,
            t.format == TextureFormat::Rgba8Unorm,
            t.width == 1,
            t.height == 1,
            t.depth == 1,
            t.mip_level_count == 1,
            t.pixels@ == seq![r, g, b, a],
            t.sampler == SamplerDescriptor::spec_default(),
    {
        Texture::from_bytes_2d(
            rgba_pixel(r, g, b, a),
            1,
            1,
            TextureFormat::Rgba8Unorm,
            false,
            SamplerDescriptor::default(),
        )
    }
}

} // verus!
