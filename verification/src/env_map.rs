//! The environment-map precomputation schedule and its results: the base
//! cubemap with a full mip chain, the diffuse irradiance cubemap, the
//! specular prefiltered cubemap whose mip levels hold increasing roughness,
//! and the fixed scene binding that bundles them with the BRDF lookup
//! texture.
//!
//! The GPU collaborator executes the schedules: each blit pass downsamples
//! the previous mip level into the next, each irradiance pass convolves one
//! face, and each prefilter pass renders one face of one mip level with the
//! roughness for that level.

use vstd::prelude::*;

use crate::texture::spec_mip_count;
use crate::texture::FilterMode;
use crate::texture::SamplerDescriptor;
use crate::texture::Texture;
use crate::texture::TextureFormat;
use crate::texture::TextureKind;

verus! {

/// One mip-generation draw: sample level `target_level - 1` of `layer` and
/// write level `target_level`.
#[derive(Clone, Copy, Debug, PartialEq, Eq, Structural)]
pub struct BlitPass {
    pub layer: u32,
    pub target_level: u32,
}

/// One specular-prefilter draw: render `face` of mip `level` with the
/// roughness `roughness_sixths / 6`, clamped to one.
#[derive(Clone, Copy, Debug, PartialEq, Eq, Structural)]
pub struct PrefilterPass {
    pub level: u32,
    pub face: u32,
    pub roughness_sixths: u32,
}

/// The resources bound in the scene-level environment group.
#[derive(Clone, Copy, Debug, PartialEq, Eq, Structural)]
pub enum EnvMapBinding {
    CubemapView,
    CubemapSampler,
    IrradianceView,
    IrradianceSampler,
    PrefilteredView,
    PrefilteredSampler,
    BrdfLutView,
    BrdfLutSampler,
}

/// The fixed slot order of the scene environment group.
pub open spec fn spec_env_map_bind_entries() -> Seq<(u32, EnvMapBinding)> {
    seq![
        (0u32, EnvMapBinding::CubemapView),
        (1u32, EnvMapBinding::CubemapSampler),
        (2u32, EnvMapBinding::IrradianceView),
        (3u32, EnvMapBinding::IrradianceSampler),
        (4u32, EnvMapBinding::PrefilteredView),
        (5u32, EnvMapBinding::PrefilteredSampler),
        (6u32, EnvMapBinding::BrdfLutView),
        (7u32, EnvMapBinding::BrdfLutSampler),
    ]
}

/// The scene environment group: cubemap, irradiance and prefiltered views
/// and samplers, then the BRDF lookup, at bindings 0 through 7.
pub fn env_map_bind_entries() -> (r: Vec<(u32, EnvMapBinding)>)
    ensures
        r@ =~= spec_env_map_bind_entries(),
{
    let mut v: Vec<(u32, EnvMapBinding)> = Vec::new();
    v.push((0, EnvMapBinding::CubemapView));
    v.push((1, EnvMapBinding::CubemapSampler));
    v.push((2, EnvMapBinding::IrradianceView));
    v.push((3, EnvMapBinding::IrradianceSampler));
    v.push((4, EnvMapBinding::PrefilteredView));
    v.push((5, EnvMapBinding::PrefilteredSampler));
    v.push((6, EnvMapBinding::BrdfLutView));
    v.push((7, EnvMapBinding::BrdfLutSampler));
    v
}

/// The roughness numerator used at prefilter mip level `j`: the roughness
/// is `min(j / 6, 1)`, so the numerator over the fixed denominator 6 is
/// `min(j, 6)`.
pub open spec fn spec_roughness_sixths(j: nat) -> nat {
    if j >= 6 {
        6
    } else {
        j
    }
}

/// The roughness numerator (over denominator 6) for a prefilter mip level.
pub fn prefilter_roughness_numerator(level: u32) -> (r: u32)
    ensures
        r == spec_roughness_sixths(level as nat),
{
    if level >= 6 {
        6
    } else {
        level
    }
}

/// The prefilter roughness schedule never decreases with the mip level and
/// saturates at one (numerator 6) from level 6 on.
pub proof fn lemma_prefilter_roughness_monotone(j1: nat, j2: nat)
    requires
        j1 <= j2,
    ensures
        spec_roughness_sixths(j1) <= spec_roughness_sixths(j2),
        spec_roughness_sixths(j1) <= 6,
        j1 >= 6 ==> spec_roughness_sixths(j1) == 6,
{
}

/// The specular prefilter schedule for a cubemap with the given mip count:
/// level-major, six faces per level, each pass carrying the roughness
/// numerator of its level.
pub fn prefilter_passes(mip_level_count: u32) -> (r: Vec<PrefilterPass>)
    requires
        mip_level_count <= 32,
    ensures
        r@.len() == 6 * mip_level_count,
        forall|k: int|
            0 <= k < r@.len() ==> #[trigger] r@[k] == (PrefilterPass {
                level: (k / 6) as u32,
                face: (k % 6) as u32,
                roughness_sixths: spec_roughness_sixths((k / 6) as nat) as u32,
            }),
{
    let mut r: Vec<PrefilterPass> = Vec::new();
    let total = 6 * mip_level_count;
    let mut idx: u32 = 0;
    while idx < total
        invariant
            total == 6 * mip_level_count,
            mip_level_count <= 32,
            idx <= total,
            r@.len() == idx,
            forall|k: int|
                0 <= k < idx ==> #[trigger] r@[k] == (PrefilterPass {
                    level: (k / 6) as u32,
                    face: (k % 6) as u32,
                    roughness_sixths: spec_roughness_sixths((k / 6) as nat) as u32,
                }),
        decreases total - idx,
    {
        let level = idx / 6;
        let face = idx % 6;
        r.push(
            PrefilterPass { level, face, roughness_sixths: prefilter_roughness_numerator(level) },
        );
        idx = idx + 1;
    }
    r
}

/// The mip-generation schedule for a texture with `layer_count` layers and
/// `mip_level_count` levels: layer-major, and for each layer one blit into
/// every level from 1 up.
pub fn mipmap_blit_passes(layer_count: u32, mip_level_count: u32) -> (r: Vec<BlitPass>)
    requires
        mip_level_count >= 1,
        layer_count * (mip_level_count - 1) <= usize::MAX,
    ensures
        r@.len() == layer_count * (mip_level_count - 1),
        forall|k: int|
            0 <= k < r@.len() ==> #[trigger] r@[k] == (BlitPass {
                layer: (k / (mip_level_count - 1) as int) as u32,
                target_level: (1 + k % (mip_level_count - 1) as int) as u32,
            }),
{
    let mut r: Vec<BlitPass> = Vec::new();
    if mip_level_count == 1 {
        proof {
            assert(layer_count * (mip_level_count - 1) == 0) by (nonlinear_arith)
                requires
                    mip_level_count == 1,
            ;
        }
        return r;
    }
    let steps = mip_level_count - 1;
    let mut layer: u32 = 0;
    while layer < layer_count
        invariant
            1 <= steps == mip_level_count - 1,
            layer <= layer_count,
            layer_count * steps <= usize::MAX,
            r@.len() == layer * steps,
            forall|k: int|
                0 <= k < r@.len() ==> #[trigger] r@[k] == (BlitPass {
                    layer: (k / steps as int) as u32,
                    target_level: (1 + k % steps as int) as u32,
                }),
        decreases layer_count - layer,
    {
        let mut level: u32 = 1;
        while level < mip_level_count
            invariant
                1 <= steps == mip_level_count - 1,
                layer < layer_count,
                layer_count * steps <= usize::MAX,
                1 <= level <= mip_level_count,
                r@.len() == layer * steps + (level - 1),
                forall|k: int|
                    0 <= k < r@.len() ==> #[trigger] r@[k] == (BlitPass {
                        layer: (k / steps as int) as u32,
                        target_level: (1 + k % steps as int) as u32,
                    }),
            decreases mip_level_count - level,
        {
            proof {
                let s = steps as int;
                let la = layer as int;
                let le = level as int;
                assert((la * s + (le - 1)) / s == la && (la * s + (le - 1)) % s == le - 1)
                    by (nonlinear_arith)
                    requires
                        s >= 1,
                        0 <= le - 1 < s,
                        la >= 0,
                ;
                assert(layer * steps + steps <= layer_count * steps) by (nonlinear_arith)
                    requires
                        layer as int + 1 <= layer_count as int,
                        steps as int >= 1,
                ;
            }
            r.push(BlitPass { layer, target_level: level });
            level = level + 1;
        }
        proof {
            assert((layer as int + 1) * steps as int == layer as int * steps as int
                + steps as int) by (nonlinear_arith);
        }
        layer = layer + 1;
    }
    proof {
        assert(r@.len() == layer_count * steps);
    }
    r
}

/// The mip-generation schedule for an existing texture, deriving the chain
/// length from its base extent as the blit pass does: one pass per layer
/// and per level above the base.
pub fn generate_mipmap_passes(texture: &crate::texture::Texture) -> (r: Vec<BlitPass>)
    requires
        texture.width >= 1,
        texture.height >= 1,
        texture.depth * 31 <= usize::MAX,
    ensures
        ({
            let levels = spec_mip_count(
                if texture.width >= texture.height {
                    texture.width as nat
                } else {
                    texture.height as nat
                },
            );
            &&& r@.len() == texture.depth * (levels - 1)
            &&& forall|k: int|
                0 <= k < r@.len() ==> #[trigger] r@[k] == (BlitPass {
                    layer: (k / (levels - 1) as int) as u32,
                    target_level: (1 + k % (levels - 1) as int) as u32,
                })
        }),
{
    let levels = crate::texture::mip_level_count(texture.width, texture.height);
    proof {
        assert(texture.depth * (levels - 1) <= texture.depth * 31) by (nonlinear_arith)
            requires
                levels as int - 1 <= 31,
                texture.depth as int >= 0,
        ;
    }
    mipmap_blit_passes(texture.depth, levels)
}

/// The diffuse irradiance schedule: one convolution draw per cube face, in
/// face order.
pub fn irradiance_passes() -> (r: Vec<u32>)
    ensures
        r@ =~= seq![0u32, 1u32, 2u32, 3u32, 4u32, 5u32],
{
    let mut v: Vec<u32> = Vec::new();
    v.push(0);
    v.push(1);
    v.push(2);
    v.push(3);
    v.push(4);
    v.push(5);
    v
}

/// The bytes of six equal-size cube faces laid end to end, in +X, -X, +Y,
/// -Y, +Z, -Z order: what the base cubemap's level 0 is populated with.
pub open spec fn spec_concat_faces(faces: Seq<Vec<u8>>, k: int) -> Seq<u8>
    decreases k,
{
    if k <= 0 {
        Seq::empty()
    } else {
        spec_concat_faces(faces, k - 1) + faces[k - 1]@
    }
}

/// Concatenate six face images into one cubemap byte buffer, in face order.
pub fn assemble_cube_faces(faces: &Vec<Vec<u8>>) -> (r: Vec<u8>)
    requires
        faces@.len() == 6,
        faces@[0]@.len() + faces@[1]@.len() + faces@[2]@.len() + faces@[3]@.len()
            + faces@[4]@.len() + faces@[5]@.len() <= usize::MAX,
    ensures
        r@ == faces@[0]@ + faces@[1]@ + faces@[2]@ + faces@[3]@ + faces@[4]@ + faces@[5]@,
{
    let mut out: Vec<u8> = Vec::new();
    for f in 0..6usize
        invariant
            faces@.len() == 6,
            faces@[0]@.len() + faces@[1]@.len() + faces@[2]@.len() + faces@[3]@.len()
                + faces@[4]@.len() + faces@[5]@.len() <= usize::MAX,
            out@ == spec_concat_faces(faces@, f as int),
    {
        let face = &faces[f];
        let m = face.len();
        let ghost before = out@;
        for b in 0..m
            invariant
                m == face@.len(),
                face@ == faces@[f as int]@,
                before == spec_concat_faces(faces@, f as int),
                faces@[0]@.len() + faces@[1]@.len() + faces@[2]@.len() + faces@[3]@.len()
                    + faces@[4]@.len() + faces@[5]@.len() <= usize::MAX,
                faces@.len() == 6,
                0 <= f < 6,
                out@ == before + face@.take(b as int),
        {
            out.push(face[b]);
            proof {
                assert(out@ =~= before + face@.take(b as int + 1));
            }
        }
        proof {
            assert(face@.take(m as int) =~= face@);
            assert(out@ =~= spec_concat_faces(faces@, f as int + 1));
        }
    }
    proof {
        assert(spec_concat_faces(faces@, 0) =~= Seq::<u8>::empty());
        assert(spec_concat_faces(faces@, 1) =~= faces@[0]@);
        assert(spec_concat_faces(faces@, 2) =~= faces@[0]@ + faces@[1]@);
        assert(spec_concat_faces(faces@, 3) =~= faces@[0]@ + faces@[1]@ + faces@[2]@);
        assert(spec_concat_faces(faces@, 4) =~= faces@[0]@ + faces@[1]@ + faces@[2]@
            + faces@[3]@);
        assert(spec_concat_faces(faces@, 5) =~= faces@[0]@ + faces@[1]@ + faces@[2]@ + faces@[3]@
            + faces@[4]@);
        assert(spec_concat_faces(faces@, 6) =~= faces@[0]@ + faces@[1]@ + faces@[2]@ + faces@[3]@
            + faces@[4]@ + faces@[5]@);
    }
    out
}

/// The three cube textures of one environment, bound together with the BRDF
/// lookup in the fixed scene slot order.
pub struct EnvMap {
    pub cubemap: Texture,
    pub irradiance: Texture,
    pub prefiltered: Texture,
    pub bind_entries: Vec<(u32, EnvMapBinding)>,
}

/// Whether a texture is the single-pixel-per-face fallback cube.
pub open spec fn spec_is_default_cube(t: Texture) -> bool {
    &&& t.kind == TextureKind::Cube
    &&& t.format == TextureFormat::Rgba8Unorm
    &&& t.width == 1
    &&& t.height == 1
    &&& t.depth == 6
    &&& t.mip_level_count == 1
    &&& t.pixels@ == Texture::spec_default_cube_pixels()
    &&& t.sampler == SamplerDescriptor::spec_default()
}

impl Default for EnvMap {
    /// The environment before any skybox is loaded: flat-color fallback
    /// cubes for all three roles, no convolution, and the fixed scene
    /// binding order.
    fn default() -> (r: EnvMap)
        ensures
            spec_is_default_cube(r.cubemap),
            spec_is_default_cube(r.irradiance),
            spec_is_default_cube(r.prefiltered),
            r.bind_entries@ == spec_env_map_bind_entries(),
    {
        EnvMap {
            cubemap: Texture::default_cube(),
            irradiance: Texture::default_cube(),
            prefiltered: Texture::default_cube(),
            bind_entries: env_map_bind_entries(),
        }
    }
}

/// Build a new environment from six assembled RGBA face images of side
/// `width`: the base cubemap initialized from the bytes with a full mip
/// chain, and irradiance and prefiltered render-target cubes of the same
/// size, each with a full mip chain, all sampled clamped and fully linear.
/// The GPU collaborator then runs the mip, irradiance and prefilter
/// schedules into them.
pub fn create_env_map(bytes: Vec<u8>, width: u32, format: TextureFormat) -> (r: EnvMap)
    requires
        width >= 1,
        bytes@.len() == 6 * width * width * format.spec_block_size(),
    ensures
        r.cubemap.kind == TextureKind::Cube,
        r.cubemap.format == format,
        r.cubemap.width == width,
        r.cubemap.height == width,
        r.cubemap.depth == 6,
        r.cubemap.mip_level_count == spec_mip_count(width as nat),
        r.cubemap.pixels == bytes,
        r.cubemap.sampler == SamplerDescriptor::spec_clamped_linear(FilterMode::Linear),
        r.irradiance.kind == TextureKind::Cube && r.irradiance.format == format
            && r.irradiance.width == width && r.irradiance.depth == 6
            && r.irradiance.mip_level_count == spec_mip_count(width as nat)
            && r.irradiance.pixels@.len() == 0,
        r.prefiltered.kind == TextureKind::Cube && r.prefiltered.format == format
            && r.prefiltered.width == width && r.prefiltered.depth == 6
            && r.prefiltered.mip_level_count == spec_mip_count(width as nat)
            && r.prefiltered.pixels@.len() == 0,
        r.bind_entries@ == spec_env_map_bind_entries(),
{
    let cubemap = Texture::from_bytes_cube(
        bytes,
        width,
        format,
        true,
        SamplerDescriptor::clamped_linear(FilterMode::Linear),
    );
    let irradiance = Texture::render_target_cube(width, format, true);
    let prefiltered = Texture::render_target_cube(width, format, true);
    EnvMap { cubemap, irradiance, prefiltered, bind_entries: env_map_bind_entries() }
}

} // verus!
