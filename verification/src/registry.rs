//! The asset registry populated during the load phase and read during
//! rendering: the built shaders, and one render-pipeline description per
//! `(shader, pass)` pair, keyed by the shader's name and the pass tag.
//!
//! Pipeline lookups at draw time are soft: a shader lacking a requested
//! pass simply produces no draw for that light.

use vstd::prelude::*;

use crate::description::MaterialDescription;
use crate::description::ShaderDescription;
use crate::keyed::lemma_first_index_found;
use crate::keyed::lemma_first_index_none;
use crate::keyed::lemma_first_index_not_found;
use crate::keyed::spec_first_index;
use crate::keyed::str_eq;
use crate::material::Material;
use crate::pipeline::spec_forward_pipeline_ok;
use crate::pipeline::RenderPipelineDesc;
use crate::shader::spec_description_ok;
use crate::shader::Shader;
use crate::state::ShaderParseError;
use crate::state::SubShaderOption;
use crate::state::ResourceStateError;
use crate::texture::TextureFormat;

verus! {

/// One registered pipeline: the owning shader's name, the pass tag, and
/// the derived pipeline description.
#[derive(Debug)]
pub struct PipelineEntry {
    pub shader: String,
    pub tag: String,
    pub desc: RenderPipelineDesc,
}

/// The registry of built shaders and derived pipelines.
#[derive(Debug)]
pub struct Registry {
    pub shaders: Vec<Shader>,
    pub pipelines: Vec<PipelineEntry>,
}

/// Position of the first pipeline entry matching both the shader name and
/// the pass tag, or -1 when none does.
pub open spec fn spec_pipeline_index(
    entries: Seq<PipelineEntry>,
    shader: Seq<char>,
    tag: Seq<char>,
) -> int
    decreases entries.len(),
{
    if entries.len() == 0 {
        -1
    } else if entries[0].shader@ == shader && entries[0].tag@ == tag {
        0
    } else {
        let rest = spec_pipeline_index(entries.drop_first(), shader, tag);
        if rest < 0 {
            -1
        } else {
            rest + 1
        }
    }
}

/// A matching entry preceded only by non-matching entries is the first
/// match.
proof fn lemma_pipeline_index_found(
    entries: Seq<PipelineEntry>,
    shader: Seq<char>,
    tag: Seq<char>,
    i: int,
)
    requires
        0 <= i < entries.len(),
        forall|j: int|
            0 <= j < i ==> !((#[trigger] entries[j]).shader@ == shader && entries[j].tag@ == tag),
        entries[i].shader@ == shader && entries[i].tag@ == tag,
    ensures
        spec_pipeline_index(entries, shader, tag) == i,
    decreases entries.len(),
{
    if i > 0 {
        lemma_pipeline_index_found(entries.drop_first(), shader, tag, i - 1);
    }
}

/// When no entry matches, the lookup reports -1.
proof fn lemma_pipeline_index_none(entries: Seq<PipelineEntry>, shader: Seq<char>, tag: Seq<char>)
    requires
        forall|j: int|
            0 <= j < entries.len() ==> !((#[trigger] entries[j]).shader@ == shader
                && entries[j].tag@ == tag),
    ensures
        spec_pipeline_index(entries, shader, tag) == -1,
    decreases entries.len(),
{
    if entries.len() > 0 {
        lemma_pipeline_index_none(entries.drop_first(), shader, tag);
    }
}

/// Whether some shader description in the list bears the given name.
pub open spec fn spec_has_shader_named(descs: Seq<ShaderDescription>, name: Seq<char>) -> bool {
    exists|i: int| 0 <= i < descs.len() && name == (#[trigger] descs[i]).name@
}

/// A lookup that reports -1 found no matching entry anywhere.
proof fn lemma_pipeline_index_not_found(
    entries: Seq<PipelineEntry>,
    shader: Seq<char>,
    tag: Seq<char>,
)
    requires
        spec_pipeline_index(entries, shader, tag) == -1,
    ensures
        forall|j: int|
            0 <= j < entries.len() ==> !((#[trigger] entries[j]).shader@ == shader
                && entries[j].tag@ == tag),
    decreases entries.len(),
{
    if entries.len() > 0 {
        lemma_pipeline_index_not_found(entries.drop_first(), shader, tag);
        assert forall|j: int|
            0 <= j < entries.len() implies !((#[trigger] entries[j]).shader@ == shader
            && entries[j].tag@ == tag) by {
            if j > 0 {
                assert(entries.drop_first()[j - 1] == entries[j]);
            }
        }
    }
}

/// The first pipeline index is either -1 or a position holding a match.
proof fn lemma_pipeline_index_valid(entries: Seq<PipelineEntry>, shader: Seq<char>, tag: Seq<char>)
    ensures
        spec_pipeline_index(entries, shader, tag) == -1 || (0 <= spec_pipeline_index(
            entries,
            shader,
            tag,
        ) < entries.len()),
    decreases entries.len(),
{
    if entries.len() > 0 && !(entries[0].shader@ == shader && entries[0].tag@ == tag) {
        lemma_pipeline_index_valid(entries.drop_first(), shader, tag);
    }
}

/// The pass tag used for a light by its position in the frame: the first
/// light rendered for a mesh uses `ForwardBase`, every further light uses
/// `ForwardAdd`.
pub fn pass_tag_for_light(light_index: usize) -> (r: &'static str)
    ensures
        light_index == 0 ==> r@ == "ForwardBase"@,
        light_index != 0 ==> r@ == "ForwardAdd"@,
{
    if light_index == 0 {
        "ForwardBase"
    } else {
        "ForwardAdd"
    }
}

impl Registry {
    /// Well-formedness: every registered shader is well-formed.
    pub open spec fn wf(self) -> bool {
        forall|i: int| 0 <= i < self.shaders@.len() ==> (#[trigger] self.shaders@[i]).wf()
    }

    /// The names of the registered shaders.
    pub open spec fn spec_shader_names(self) -> Seq<Seq<char>> {
        self.shaders@.map_values(|s: Shader| s.name@)
    }

    /// Position of the first registered shader with the given name.
    pub open spec fn spec_shader_index(self, name: Seq<char>) -> int {
        spec_first_index(self.spec_shader_names(), name)
    }

    /// An empty registry.
    pub fn new() -> (r: Registry)
        ensures
            r.wf(),
            r.shaders@.len() == 0,
            r.pipelines@.len() == 0,
    {
        Registry { shaders: Vec::new(), pipelines: Vec::new() }
    }

    /// Find a registered shader by name.
    pub fn find_shader(&self, name: &str) -> (r: Option<&Shader>)
        ensures
            r matches Some(s) ==> self.spec_shader_index(name@) >= 0 && *s
                == self.shaders@[self.spec_shader_index(name@)],
            r is None <==> self.spec_shader_index(name@) < 0,
    {
        let ghost keys = self.spec_shader_names();
        let n = self.shaders.len();
        for j in 0..n
            invariant
                keys == self.spec_shader_names(),
                n == self.shaders@.len(),
                keys.len() == n,
                forall|k: int| 0 <= k < j ==> keys[k] != name@,
        {
            assert(keys[j as int] == self.shaders@[j as int].name@);
            if str_eq(self.shaders[j].name.as_str(), name) {
                proof {
                    lemma_first_index_found(keys, name@, j as int);
                }
                return Some(&self.shaders[j]);
            }
        }
        proof {
            lemma_first_index_none(keys, name@);
        }
        None
    }

    /// Register a built shader: the shader itself, and one pipeline
    /// description per pass, keyed by the shader's name and the pass tag.
    pub fn add_shader(
        &mut self,
        shader: Shader,
        color_format: TextureFormat,
        depth_stencil_format: TextureFormat,
    ) -> (r: Result<(), ResourceStateError>)
        requires
            old(self).wf(),
            shader.wf(),
        ensures
            r is Ok <==> shader.built(),
            r is Ok ==> {
                &&& final(self).wf()
                &&& final(self).shaders@ == old(self).shaders@.push(shader)
                &&& final(self).pipelines@.len() == old(self).pipelines@.len()
                    + shader.sub_shaders@.len()
                &&& forall|i: int|
                    0 <= i < shader.sub_shaders@.len() ==> {
                        let e = #[trigger] final(self).pipelines@[old(self).pipelines@.len() + i];
                        &&& e.shader@ == shader.name@
                        &&& e.tag@ == shader.sub_shaders@[i].tag@
                        &&& spec_forward_pipeline_ok(
                            e.desc,
                            shader.sub_shaders@[i].options,
                            color_format,
                            depth_stencil_format,
                        )
                    }
                &&& forall|i: int|
                    0 <= i < old(self).pipelines@.len() ==> final(self).pipelines@[i]
                        == old(self).pipelines@[i]
            },
            r is Err ==> *final(self) == *old(self),
    {
        if shader.bind_group_layout.is_none() {
            return Err(ResourceStateError);
        }
        let ghost base = self.pipelines@.len();
        let n = shader.sub_shaders.len();
        for i in 0..n
            invariant
                n == shader.sub_shaders@.len(),
                shader.wf(),
                shader.built(),
                self.shaders == old(self).shaders,
                self.pipelines@.len() == base + i,
                base == old(self).pipelines@.len(),
                forall|j: int|
                    0 <= j < base ==> self.pipelines@[j] == old(self).pipelines@[j],
                forall|j: int|
                    0 <= j < i ==> {
                        let e = #[trigger] self.pipelines@[base + j];
                        &&& e.shader@ == shader.name@
                        &&& e.tag@ == shader.sub_shaders@[j].tag@
                        &&& spec_forward_pipeline_ok(
                            e.desc,
                            shader.sub_shaders@[j].options,
                            color_format,
                            depth_stencil_format,
                        )
                    },
        {
            let desc = match shader.sub_shaders[i].render_pipeline(
                &shader,
                color_format,
                depth_stencil_format,
            ) {
                Ok(d) => d,
                Err(e) => {
                    proof {
                        assert(false);
                    }
                    return Err(e);
                },
            };
            let entry = PipelineEntry {
                shader: shader.name.clone(),
                tag: shader.sub_shaders[i].tag.clone(),
                desc,
            };
            self.pipelines.push(entry);
        }
        self.shaders.push(shader);
        Ok(())
    }

    /// Look up the pipeline for a shader and pass tag. A miss is silently
    /// tolerated by callers: it means "no draw for this light".
    pub fn pipeline_for(&self, shader_name: &str, tag: &str) -> (r: Option<&RenderPipelineDesc>)
        ensures
            r matches Some(d) ==> self.spec_pipeline_lookup(shader_name@, tag@) >= 0 && *d
                == self.pipelines@[self.spec_pipeline_lookup(shader_name@, tag@)].desc,
            r is None <==> self.spec_pipeline_lookup(shader_name@, tag@) < 0,
    {
        let n = self.pipelines.len();
        for j in 0..n
            invariant
                n == self.pipelines@.len(),
                forall|k: int|
                    0 <= k < j ==> !((#[trigger] self.pipelines@[k]).shader@ == shader_name@
                        && self.pipelines@[k].tag@ == tag@),
        {
            let shader_matches = str_eq(self.pipelines[j].shader.as_str(), shader_name);
            let tag_matches = str_eq(self.pipelines[j].tag.as_str(), tag);
            if shader_matches && tag_matches {
                proof {
                    lemma_pipeline_index_found(self.pipelines@, shader_name@, tag@, j as int);
                }
                return Some(&self.pipelines[j].desc);
            }
        }
        proof {
            lemma_pipeline_index_none(self.pipelines@, shader_name@, tag@);
        }
        None
    }

    /// Position of the first pipeline entry for a shader name and tag.
    pub open spec fn spec_pipeline_lookup(self, shader: Seq<char>, tag: Seq<char>) -> int {
        spec_pipeline_index(self.pipelines@, shader, tag)
    }

    /// Whether the registry holds a pipeline entry keyed by the given shader
    /// name and pass tag whose description is the forward pipeline derived
    /// from `options` for the given target formats.
    pub open spec fn spec_has_pipeline(
        self,
        shader_name: Seq<char>,
        tag: Seq<char>,
        options: SubShaderOption,
        color_format: TextureFormat,
        depth_stencil_format: TextureFormat,
    ) -> bool {
        exists|k: int|
            0 <= k < self.pipelines@.len() && spec_pipeline_entry_matches(
                #[trigger] self.pipelines@[k],
                shader_name,
                tag,
                options,
                color_format,
                depth_stencil_format,
            )
    }

    /// A registered pipeline is found by the draw-time lookup: whenever the
    /// registry holds a pipeline for a shader name and pass tag, looking
    /// that pair up succeeds, so the draw it keys can be justified.
    pub proof fn lemma_registered_pipeline_found(
        self,
        shader_name: Seq<char>,
        tag: Seq<char>,
        options: SubShaderOption,
        color_format: TextureFormat,
        depth_stencil_format: TextureFormat,
    )
        requires
            self.spec_has_pipeline(shader_name, tag, options, color_format, depth_stencil_format),
        ensures
            0 <= self.spec_pipeline_lookup(shader_name, tag) < self.pipelines@.len(),
    {
        let k0 = choose|k: int|
            0 <= k < self.pipelines@.len() && spec_pipeline_entry_matches(
                #[trigger] self.pipelines@[k],
                shader_name,
                tag,
                options,
                color_format,
                depth_stencil_format,
            );
        if self.spec_pipeline_lookup(shader_name, tag) == -1 {
            lemma_pipeline_index_not_found(self.pipelines@, shader_name, tag);
            assert(false);
        }
        lemma_pipeline_index_valid(self.pipelines@, shader_name, tag);
    }

    /// Every pass of every registered shader has its pipeline registered,
    /// keyed by the shader's name and the pass tag, with the pass's own
    /// fixed-function state.
    pub open spec fn spec_all_passes_registered(
        self,
        color_format: TextureFormat,
        depth_stencil_format: TextureFormat,
    ) -> bool {
        forall|i: int, j: int|
            0 <= i < self.shaders@.len() && 0 <= j < self.shaders@[i].sub_shaders@.len()
                ==> self.spec_has_pipeline(
                self.shaders@[i].name@,
                (#[trigger] self.shaders@[i].sub_shaders@[j]).tag@,
                self.shaders@[i].sub_shaders@[j].options,
                color_format,
                depth_stencil_format,
            )
    }

    /// The pipeline used to draw a mesh with the given material shader under
    /// the light at `light_index`: the `ForwardBase` pass for the first
    /// light, `ForwardAdd` for the rest, or no draw when the shader lacks
    /// that pass.
    pub fn pipeline_for_draw(&self, material_shader: &str, light_index: usize) -> (r: Option<
        &RenderPipelineDesc,
    >)
        ensures
            ({
                let tag = if light_index == 0 {
                    "ForwardBase"@
                } else {
                    "ForwardAdd"@
                };
                &&& (r matches Some(d) ==> self.spec_pipeline_lookup(material_shader@, tag) >= 0
                    && *d == self.pipelines@[self.spec_pipeline_lookup(material_shader@, tag)].desc)
                &&& (r is None <==> self.spec_pipeline_lookup(material_shader@, tag) < 0)
            }),
    {
        let tag = pass_tag_for_light(light_index);
        self.pipeline_for(material_shader, tag)
    }

    /// Create a material instance of the named shader, or nothing when no
    /// shader of that name is registered.
    pub fn create_material(&self, name: String, shader_name: &str) -> (r: Option<Material>)
        requires
            self.wf(),
        ensures
            r is Some <==> self.spec_shader_index(shader_name@) >= 0,
            r matches Some(m) ==> m.is_fresh_instance_of(
                name@,
                self.shaders@[self.spec_shader_index(shader_name@)],
            ),
    {
        match self.find_shader(shader_name) {
            Option::Some(shader) => {
                proof {
                    crate::keyed::lemma_first_index_valid(
                        self.spec_shader_names(),
                        shader_name@,
                    );
                    let idx = self.spec_shader_index(shader_name@);
                    assert((self.shaders@[idx]).wf());
                }
                Some(Material::from_shader(name, shader))
            },
            Option::None => None,
        }
    }
}

/// Whether one pipeline entry is keyed by the given shader name and tag and
/// carries the forward pipeline derived from `options`.
pub open spec fn spec_pipeline_entry_matches(
    e: PipelineEntry,
    shader_name: Seq<char>,
    tag: Seq<char>,
    options: SubShaderOption,
    color_format: TextureFormat,
    depth_stencil_format: TextureFormat,
) -> bool {
    &&& e.shader@ == shader_name
    &&& e.tag@ == tag
    &&& spec_forward_pipeline_ok(e.desc, options, color_format, depth_stencil_format)
}

/// Whether a material's shader name matches some shader in the list.
pub open spec fn spec_material_resolves(m: Material, shaders: Seq<Shader>) -> bool {
    exists|i: int| 0 <= i < shaders.len() && m.shader@ == (#[trigger] shaders[i]).name@
}

/// The names of a list of material instances.
pub open spec fn spec_material_names(materials: Seq<Material>) -> Seq<Seq<char>> {
    materials.map_values(|m: Material| m.name@)
}

/// Find the first material with the given name, as the draw loop does when
/// a mesh names its material. A miss is tolerated: the mesh simply draws
/// nothing.
pub fn find_material_index(materials: &Vec<Material>, name: &str) -> (r: Option<usize>)
    ensures
        r matches Some(i) ==> spec_first_index(spec_material_names(materials@), name@) == i,
        r is None <==> spec_first_index(spec_material_names(materials@), name@) < 0,
{
    let ghost keys = spec_material_names(materials@);
    let n = materials.len();
    for j in 0..n
        invariant
            keys == spec_material_names(materials@),
            n == materials@.len(),
            keys.len() == n,
            forall|k: int| 0 <= k < j ==> keys[k] != name@,
    {
        assert(keys[j as int] == materials@[j as int].name@);
        if str_eq(materials[j].name.as_str(), name) {
            proof {
                lemma_first_index_found(keys, name@, j as int);
            }
            return Some(j);
        }
    }
    proof {
        lemma_first_index_none(keys, name@);
    }
    None
}

/// One draw decision of a frame: which mesh to draw under which light. The
/// pipeline used is the one keyed by the mesh's material shader and the
/// light's pass tag.
#[derive(Clone, Copy, Debug, PartialEq, Eq, Structural)]
pub struct DrawCall {
    pub mesh_index: usize,
    pub light_index: usize,
}

/// The pass tag for the light at position `l` in the frame.
pub open spec fn spec_light_tag(l: int) -> Seq<char> {
    if l == 0 {
        "ForwardBase"@
    } else {
        "ForwardAdd"@
    }
}

impl Registry {
    /// Whether mesh `m` is drawn under light `l`: its material name
    /// resolves, and the material's shader has the pass for that light.
    pub open spec fn spec_draw_allowed(
        self,
        materials: Seq<Material>,
        mesh_materials: Seq<String>,
        m: int,
        l: int,
    ) -> bool {
        let mi = spec_first_index(spec_material_names(materials), mesh_materials[m]@);
        &&& mi >= 0
        &&& self.spec_pipeline_lookup(materials[mi].shader@, spec_light_tag(l)) >= 0
    }

    /// The draw decisions of one frame: for each light in order (the first
    /// light uses `ForwardBase`, the rest `ForwardAdd`) and each mesh in
    /// order, a draw exactly when the mesh's material resolves and its
    /// shader has the pass — a missing material or pass silently skips the
    /// draw.
    pub fn draw_plan(
        &self,
        mesh_materials: &Vec<String>,
        materials: &Vec<Material>,
        light_count: usize,
    ) -> (r: Vec<DrawCall>)
        ensures
            forall|k: int|
                0 <= k < r@.len() ==> (#[trigger] r@[k]).light_index < light_count
                    && r@[k].mesh_index < mesh_materials@.len() && self.spec_draw_allowed(
                    materials@,
                    mesh_materials@,
                    r@[k].mesh_index as int,
                    r@[k].light_index as int,
                ),
            forall|a: int, b: int|
                0 <= a < b < r@.len() ==> (#[trigger] r@[a]).light_index < (
                #[trigger] r@[b]).light_index || (r@[a].light_index == r@[b].light_index
                    && r@[a].mesh_index < r@[b].mesh_index),
            forall|m: int, l: int|
                0 <= m < mesh_materials@.len() && 0 <= l < light_count && self.spec_draw_allowed(
                    materials@,
                    mesh_materials@,
                    m,
                    l,
                ) ==> exists|k: int|
                    0 <= k < r@.len() && (#[trigger] r@[k]) == (DrawCall {
                        mesh_index: m as usize,
                        light_index: l as usize,
                    }),
    {
        let mut r: Vec<DrawCall> = Vec::new();
        let n = mesh_materials.len();
        for l in 0..light_count
            invariant
                n == mesh_materials@.len(),
                forall|k: int|
                    0 <= k < r@.len() ==> (#[trigger] r@[k]).light_index < l && r@[k].mesh_index
                        < n && self.spec_draw_allowed(
                        materials@,
                        mesh_materials@,
                        r@[k].mesh_index as int,
                        r@[k].light_index as int,
                    ),
                forall|a: int, b: int|
                    0 <= a < b < r@.len() ==> (#[trigger] r@[a]).light_index < (
                    #[trigger] r@[b]).light_index || (r@[a].light_index == r@[b].light_index
                        && r@[a].mesh_index < r@[b].mesh_index),
                forall|m: int, lp: int|
                    0 <= m < n && 0 <= lp < l && self.spec_draw_allowed(
                        materials@,
                        mesh_materials@,
                        m,
                        lp,
                    ) ==> exists|k: int|
                        0 <= k < r@.len() && (#[trigger] r@[k]) == (DrawCall {
                            mesh_index: m as usize,
                            light_index: lp as usize,
                        }),
        {
            let tag = pass_tag_for_light(l);
            for m in 0..n
                invariant
                    n == mesh_materials@.len(),
                    l < light_count,
                    tag@ == spec_light_tag(l as int),
                    forall|k: int|
                        0 <= k < r@.len() ==> ((#[trigger] r@[k]).light_index < l || (
                        r@[k].light_index == l && r@[k].mesh_index < m)) && r@[k].mesh_index < n
                            && self.spec_draw_allowed(
                            materials@,
                            mesh_materials@,
                            r@[k].mesh_index as int,
                            r@[k].light_index as int,
                        ),
                    forall|a: int, b: int|
                        0 <= a < b < r@.len() ==> (#[trigger] r@[a]).light_index < (
                        #[trigger] r@[b]).light_index || (r@[a].light_index == r@[b].light_index
                            && r@[a].mesh_index < r@[b].mesh_index),
                    forall|mp: int, lp: int|
                        0 <= mp < n && 0 <= lp < l && self.spec_draw_allowed(
                            materials@,
                            mesh_materials@,
                            mp,
                            lp,
                        ) ==> exists|k: int|
                            0 <= k < r@.len() && (#[trigger] r@[k]) == (DrawCall {
                                mesh_index: mp as usize,
                                light_index: lp as usize,
                            }),
                    forall|mp: int|
                        0 <= mp < m && self.spec_draw_allowed(
                            materials@,
                            mesh_materials@,
                            mp,
                            l as int,
                        ) ==> exists|k: int|
                            0 <= k < r@.len() && (#[trigger] r@[k]) == (DrawCall {
                                mesh_index: mp as usize,
                                light_index: l,
                            }),
            {
                match find_material_index(materials, mesh_materials[m].as_str()) {
                    Option::Some(mi) => {
                        proof {
                            crate::keyed::lemma_first_index_valid(
                                spec_material_names(materials@),
                                mesh_materials@[m as int]@,
                            );
                            assert(spec_material_names(materials@)[mi as int]
                                == materials@[mi as int].name@);
                        }
                        if self.pipeline_for(materials[mi].shader.as_str(), tag).is_some() {
                            let ghost before = r@;
                            r.push(DrawCall { mesh_index: m, light_index: l });
                            proof {
                                assert(r@[before.len() as int] == (DrawCall {
                                    mesh_index: m,
                                    light_index: l,
                                }));
                                assert forall|mp: int, lp: int|
                                    0 <= mp < n && 0 <= lp < l && self.spec_draw_allowed(
                                        materials@,
                                        mesh_materials@,
                                        mp,
                                        lp,
                                    ) implies exists|k: int|
                                    0 <= k < r@.len() && (#[trigger] r@[k]) == (DrawCall {
                                        mesh_index: mp as usize,
                                        light_index: lp as usize,
                                    }) by {
                                    let dc = DrawCall {
                                        mesh_index: mp as usize,
                                        light_index: lp as usize,
                                    };
                                    let k0 = choose|k: int|
                                        0 <= k < before.len() && (#[trigger] before[k]) == dc;
                                    assert(r@[k0] == dc);
                                }
                                assert forall|mp: int|
                                    0 <= mp < m && self.spec_draw_allowed(
                                        materials@,
                                        mesh_materials@,
                                        mp,
                                        l as int,
                                    ) implies exists|k: int|
                                    0 <= k < r@.len() && (#[trigger] r@[k]) == (DrawCall {
                                        mesh_index: mp as usize,
                                        light_index: l,
                                    }) by {
                                    let dc = DrawCall { mesh_index: mp as usize, light_index: l };
                                    let k0 = choose|k: int|
                                        0 <= k < before.len() && (#[trigger] before[k]) == dc;
                                    assert(r@[k0] == dc);
                                }
                            }
                        }
                    },
                    Option::None => {},
                }
            }
        }
        r
    }
}

/// Build a registry and its material instances from parsed descriptions:
/// each shader description is validated, built and registered with one
/// pipeline per pass, then each material description instantiates its
/// shader. Fails on the first malformed shader description or on a material
/// naming an unknown shader, with the offender named.
pub fn load_shader_set(
    shader_descs: &Vec<ShaderDescription>,
    material_descs: &Vec<MaterialDescription>,
    color_format: TextureFormat,
    depth_stencil_format: TextureFormat,
) -> (r: Result<(Registry, Vec<Material>), ShaderParseError>)
    ensures
        r is Ok <==> (forall|i: int|
            0 <= i < shader_descs@.len() ==> spec_description_ok(#[trigger] shader_descs@[i]))
            && (forall|j: int|
            0 <= j < material_descs@.len() ==> spec_has_shader_named(
                shader_descs@,
                (#[trigger] material_descs@[j]).shader@,
            )),
        r matches Ok((reg, mats)) ==> {
            &&& reg.wf()
            &&& reg.shaders@.len() == shader_descs@.len()
            &&& forall|i: int|
                0 <= i < shader_descs@.len() ==> (#[trigger] reg.shaders@[i]).name@
                    == shader_descs@[i].name@ && reg.shaders@[i].built()
            &&& reg.spec_all_passes_registered(color_format, depth_stencil_format)
            &&& mats@.len() == material_descs@.len()
            &&& forall|j: int|
                0 <= j < material_descs@.len() ==> (#[trigger] mats@[j]).name@
                    == material_descs@[j].name@ && mats@[j].shader@ == material_descs@[j].shader@
            &&& forall|j: int|
                0 <= j < mats@.len() ==> spec_material_resolves(#[trigger] mats@[j], reg.shaders@)
        },
{
    let mut registry = Registry::new();
    let n = shader_descs.len();
    for i in 0..n
        invariant
            n == shader_descs@.len(),
            registry.wf(),
            registry.shaders@.len() == i,
            forall|j: int|
                0 <= j < i ==> spec_description_ok(#[trigger] shader_descs@[j]),
            forall|j: int|
                0 <= j < i ==> (#[trigger] registry.shaders@[j]).name@ == shader_descs@[j].name@
                    && registry.shaders@[j].built() && registry.shaders@[j].wf(),
            registry.spec_all_passes_registered(color_format, depth_stencil_format),
    {
        let mut shader = match Shader::from_description(&shader_descs[i]) {
            Ok(s) => s,
            Err(e) => {
                return Err(e);
            },
        };
        shader.build();
        let ghost pre = registry;
        let ghost sh = shader;
        match registry.add_shader(shader, color_format, depth_stencil_format) {
            Ok(()) => {},
            Err(_) => {
                proof {
                    assert(false);
                }
            },
        }
        proof {
            assert forall|a: int, b: int|
                0 <= a < registry.shaders@.len() && 0 <= b
                    < registry.shaders@[a].sub_shaders@.len() implies registry.spec_has_pipeline(
                registry.shaders@[a].name@,
                (#[trigger] registry.shaders@[a].sub_shaders@[b]).tag@,
                registry.shaders@[a].sub_shaders@[b].options,
                color_format,
                depth_stencil_format,
            ) by {
                if a < pre.shaders@.len() {
                    assert(registry.shaders@[a] == pre.shaders@[a]);
                    assert(pre.spec_has_pipeline(
                        pre.shaders@[a].name@,
                        pre.shaders@[a].sub_shaders@[b].tag@,
                        pre.shaders@[a].sub_shaders@[b].options,
                        color_format,
                        depth_stencil_format,
                    ));
                    let k0 = choose|k: int|
                        0 <= k < pre.pipelines@.len() && spec_pipeline_entry_matches(
                            #[trigger] pre.pipelines@[k],
                            pre.shaders@[a].name@,
                            pre.shaders@[a].sub_shaders@[b].tag@,
                            pre.shaders@[a].sub_shaders@[b].options,
                            color_format,
                            depth_stencil_format,
                        );
                    assert(registry.pipelines@[k0] == pre.pipelines@[k0]);
                } else {
                    assert(registry.shaders@[a] == sh);
                    let e = registry.pipelines@[pre.pipelines@.len() + b];
                    assert(e.shader@ == sh.name@ && e.tag@ == sh.sub_shaders@[b].tag@
                        && spec_forward_pipeline_ok(
                        e.desc,
                        sh.sub_shaders@[b].options,
                        color_format,
                        depth_stencil_format,
                    ));
                }
            }
        }
    }
    let mut materials: Vec<Material> = Vec::new();
    let m = material_descs.len();
    for j in 0..m
        invariant
            m == material_descs@.len(),
            n == shader_descs@.len(),
            registry.wf(),
            registry.shaders@.len() == n,
            forall|k: int|
                0 <= k < n ==> spec_description_ok(#[trigger] shader_descs@[k]),
            forall|k: int|
                0 <= k < n ==> (#[trigger] registry.shaders@[k]).name@ == shader_descs@[k].name@
                    && registry.shaders@[k].built() && registry.shaders@[k].wf(),
            registry.spec_all_passes_registered(color_format, depth_stencil_format),
            materials@.len() == j,
            forall|k: int|
                0 <= k < j ==> spec_has_shader_named(
                    shader_descs@,
                    (#[trigger] material_descs@[k]).shader@,
                ),
            forall|k: int|
                0 <= k < j ==> (#[trigger] materials@[k]).name@ == material_descs@[k].name@
                    && materials@[k].shader@ == material_descs@[k].shader@,
    {
        let desc = &material_descs[j];
        match registry.find_shader(desc.shader.as_str()) {
            Option::Some(shader) => {
                proof {
                    crate::keyed::lemma_first_index_valid(
                        registry.spec_shader_names(),
                        desc.shader@,
                    );
                    let idx = registry.spec_shader_index(desc.shader@);
                    assert(registry.spec_shader_names()[idx] == registry.shaders@[idx].name@);
                    assert((registry.shaders@[idx]).wf());
                    assert(registry.shaders@[idx].name@ == shader_descs@[idx].name@);
                    assert(0 <= idx < shader_descs@.len() && material_descs@[j as int].shader@
                        == shader_descs@[idx].name@);
                    assert(spec_has_shader_named(
                        shader_descs@,
                        material_descs@[j as int].shader@,
                    ));
                }
                let material = Material::from_shader(desc.name.clone(), shader);
                materials.push(material);
            },
            Option::None => {
                proof {
                    lemma_first_index_not_found(registry.spec_shader_names(), desc.shader@);
                    assert forall|i: int| 0 <= i < shader_descs@.len() implies desc.shader@
                        != shader_descs@[i].name@ by {
                        assert(registry.spec_shader_names()[i] == registry.shaders@[i].name@);
                    }
                }
                proof {
                    assert(!spec_has_shader_named(
                        shader_descs@,
                        material_descs@[j as int].shader@,
                    ));
                }
                return Err(
                    crate::state::parse_error_around("Unknown shader '", desc.shader.as_str()),
                );
            },
        }
    }
    proof {
        assert forall|j2: int| 0 <= j2 < materials@.len() implies spec_material_resolves(
            #[trigger] materials@[j2],
            registry.shaders@,
        ) by {
            let i0 = choose|i: int|
                0 <= i < shader_descs@.len() && material_descs@[j2].shader@ == (
                #[trigger] shader_descs@[i]).name@;
            assert(registry.shaders@[i0].name@ == shader_descs@[i0].name@);
            assert(materials@[j2].shader@ == material_descs@[j2].shader@);
        }
    }
    Ok((registry, materials))
}

} // verus!
