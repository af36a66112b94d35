//! Shader descriptions: typed uniform/texture properties, the byte-exact
//! uniform-block layout, and per-pass raster state.
//!
//! A uniform block packs its properties in declaration order. Each property
//! is placed at the next offset aligned to its GPU alignment, and the total
//! size is rounded up to a multiple of 16 bytes, matching uniform-buffer
//! packing rules (Mat3 occupies three 16-byte columns, 48 bytes).

use vstd::prelude::*;

use crate::description::ShaderDescription;
use crate::description::TextureDescription;
use crate::graphics::BindGroupLayoutEntry;
use crate::graphics::BindingType;
use crate::keyed::lemma_first_index_found;
use crate::keyed::lemma_first_index_none;
use crate::keyed::lemma_first_index_not_found;
use crate::keyed::lemma_first_index_valid;
use crate::keyed::spec_first_index;
use crate::keyed::str_eq;
use crate::state::parse_error_around;
use crate::state::spec_sub_shader_option_of;
use crate::state::sub_shader_option_from_description;
use crate::state::ShaderParseError;
use crate::state::SubShaderOption;
use crate::texture::TextureDefault;
use crate::texture::TextureKind;

verus! {

/// The typed shapes a uniform-block property can take.
#[derive(Clone, Copy, Debug, PartialEq, Eq, Structural)]
pub enum UniformProperty {
    Float,
    Vec2,
    Vec3,
    Vec4,
    Mat3,
    Mat4,
}

impl UniformProperty {
    /// Bytes the property occupies inside a uniform block.
    pub open spec fn spec_size(self) -> int {
        match self {
            UniformProperty::Float => 4,
            UniformProperty::Vec2 => 8,
            UniformProperty::Vec3 => 12,
            UniformProperty::Vec4 => 16,
            UniformProperty::Mat3 => 48,
            UniformProperty::Mat4 => 64,
        }
    }

    /// Minimum byte alignment of the property inside a uniform block.
    pub open spec fn spec_align(self) -> int {
        match self {
            UniformProperty::Float => 4,
            UniformProperty::Vec2 => 8,
            UniformProperty::Vec3 => 16,
            UniformProperty::Vec4 => 16,
            UniformProperty::Mat3 => 16,
            UniformProperty::Mat4 => 16,
        }
    }

    /// Bytes the property occupies inside a uniform block (Mat3 is stored
    /// padded, as three 16-byte-aligned columns).
    pub fn size(&self) -> (r: usize)
        ensures
            r == self.spec_size(),
    {
        match self {
            UniformProperty::Float => 4,
            UniformProperty::Vec2 => 8,
            UniformProperty::Vec3 => 12,
            UniformProperty::Vec4 => 16,
            UniformProperty::Mat3 => 48,
            UniformProperty::Mat4 => 64,
        }
    }

    /// Minimum byte alignment of the property inside a uniform block.
    pub fn align(&self) -> (r: usize)
        ensures
            r == self.spec_align(),
    {
        match self {
            UniformProperty::Float => 4,
            UniformProperty::Vec2 => 8,
            UniformProperty::Vec3 => 16,
            UniformProperty::Vec4 => 16,
            UniformProperty::Mat3 => 16,
            UniformProperty::Mat4 => 16,
        }
    }
}

/// `n` rounded up to the next multiple of `a`.
pub open spec fn spec_round_up(n: int, a: int) -> int {
    if n % a == 0 {
        n
    } else {
        n + a - n % a
    }
}

/// Rounding up lands in `[n, n + a)` on a multiple of `a`.
pub proof fn lemma_round_up_properties(n: int, a: int)
    requires
        n >= 0,
        a > 0,
    ensures
        n <= spec_round_up(n, a) < n + a,
        spec_round_up(n, a) % a == 0,
{
    assert(0 <= n % a < a) by (nonlinear_arith)
        requires
            n >= 0,
            a > 0,
    ;
    if n % a != 0 {
        assert((n + (a - n % a)) % a == 0) by (nonlinear_arith)
            requires
                n >= 0,
                a > 0,
        ;
    }
}

/// The sequence of property types in a named property list.
pub open spec fn uniform_props_of(s: Seq<(String, UniformProperty)>) -> Seq<UniformProperty> {
    s.map_values(|p: (String, UniformProperty)| p.1)
}

/// Bytes consumed by the first `i` properties, before padding for the next.
pub open spec fn spec_packed_end(props: Seq<UniformProperty>, i: int) -> int
    decreases i,
{
    if i <= 0 {
        0
    } else {
        spec_round_up(spec_packed_end(props, i - 1), props[i - 1].spec_align())
            + props[i - 1].spec_size()
    }
}

/// Byte offset of property `i` inside the packed uniform block.
pub open spec fn spec_offset_of(props: Seq<UniformProperty>, i: int) -> int {
    spec_round_up(spec_packed_end(props, i), props[i].spec_align())
}

/// Total size of the packed uniform block: the packed end of the whole list,
/// rounded up to a multiple of 16.
pub open spec fn spec_uniform_size(props: Seq<UniformProperty>) -> int {
    spec_round_up(spec_packed_end(props, props.len() as int), 16)
}

/// The packed end after `i` properties is non-negative and at most `79 * i`.
pub proof fn lemma_packed_end_bounds(props: Seq<UniformProperty>, i: int)
    requires
        0 <= i,
    ensures
        0 <= spec_packed_end(props, i) <= 79 * i,
    decreases i,
{
    if i > 0 {
        lemma_packed_end_bounds(props, i - 1);
        lemma_round_up_properties(spec_packed_end(props, i - 1), props[i - 1].spec_align());
    }
}

/// The packed end grows with the number of properties consumed.
pub proof fn lemma_packed_end_monotone(props: Seq<UniformProperty>, i: int, j: int)
    requires
        0 <= i <= j,
    ensures
        spec_packed_end(props, i) <= spec_packed_end(props, j),
    decreases j - i,
{
    if i < j {
        lemma_packed_end_monotone(props, i, j - 1);
        lemma_packed_end_bounds(props, j - 1);
        lemma_round_up_properties(spec_packed_end(props, j - 1), props[j - 1].spec_align());
    }
}

/// Laws of the uniform block layout: each offset is aligned to its property,
/// offsets advance past the previous property, every property fits inside the
/// total size, and the total size is a multiple of 16. Determinism is by
/// construction: `compute_uniform_layout` returns exactly these spec
/// functions of the property list, so equal lists get equal layouts.
pub proof fn lemma_uniform_layout_laws(props: Seq<UniformProperty>)
    ensures
        spec_uniform_size(props) % 16 == 0,
        props.len() == 0 ==> spec_uniform_size(props) == 0,
        props.len() > 0 ==> spec_offset_of(props, 0) == 0,
        forall|i: int|
            0 <= i < props.len() ==> #[trigger] spec_offset_of(props, i)
                % props[i].spec_align() == 0,
        forall|i: int|
            1 <= i < props.len() ==> #[trigger] spec_offset_of(props, i)
                >= spec_offset_of(props, i - 1) + props[i - 1].spec_size(),
        forall|i: int|
            0 <= i < props.len() ==> #[trigger] spec_offset_of(props, i)
                + props[i].spec_size() <= spec_uniform_size(props),
        forall|i: int| 0 <= i < props.len() ==> 0 <= #[trigger] spec_offset_of(props, i),
{
    lemma_packed_end_bounds(props, props.len() as int);
    lemma_round_up_properties(spec_packed_end(props, props.len() as int), 16);
    if props.len() > 0 {
        lemma_round_up_properties(0, props[0].spec_align());
    }
    assert forall|i: int| 0 <= i < props.len() implies #[trigger] spec_offset_of(props, i)
        % props[i].spec_align() == 0 by {
        lemma_packed_end_bounds(props, i);
        lemma_round_up_properties(spec_packed_end(props, i), props[i].spec_align());
    }
    assert forall|i: int| 1 <= i < props.len() implies #[trigger] spec_offset_of(props, i)
        >= spec_offset_of(props, i - 1) + props[i - 1].spec_size() by {
        lemma_packed_end_bounds(props, i);
        lemma_round_up_properties(spec_packed_end(props, i), props[i].spec_align());
    }
    assert forall|i: int| 0 <= i < props.len() implies #[trigger] spec_offset_of(props, i)
        + props[i].spec_size() <= spec_uniform_size(props) by {
        lemma_packed_end_bounds(props, i);
        lemma_round_up_properties(spec_packed_end(props, i), props[i].spec_align());
        lemma_packed_end_monotone(props, i + 1, props.len() as int);
        lemma_packed_end_bounds(props, props.len() as int);
        lemma_round_up_properties(spec_packed_end(props, props.len() as int), 16);
    }
    assert forall|i: int| 0 <= i < props.len() implies 0 <= #[trigger] spec_offset_of(
        props,
        i,
    ) by {
        lemma_packed_end_bounds(props, i);
        lemma_round_up_properties(spec_packed_end(props, i), props[i].spec_align());
    }
}

/// Compute every property offset and the padded total size for a property
/// list, processed strictly in declaration order.
pub fn compute_uniform_layout(props: &Vec<(String, UniformProperty)>) -> (r: (Vec<usize>, usize))
    requires
        80 * props@.len() <= usize::MAX,
    ensures
        r.0@.len() == props@.len(),
        forall|i: int|
            0 <= i < props@.len() ==> r.0@[i] == spec_offset_of(uniform_props_of(props@), i),
        r.1 == spec_uniform_size(uniform_props_of(props@)),
{
    let ghost ps = uniform_props_of(props@);
    let mut offsets: Vec<usize> = Vec::new();
    let mut total: usize = 0;
    let n = props.len();
    assert(ps.len() == props@.len());
    for i in 0..n
        invariant
            n == props@.len(),
            ps == uniform_props_of(props@),
            ps.len() == n,
            80 * n <= usize::MAX,
            offsets@.len() == i,
            total == spec_packed_end(ps, i as int),
            0 <= total <= 79 * i,
            forall|j: int| 0 <= j < i ==> offsets@[j] == spec_offset_of(ps, j),
    {
        let prop = props[i].1;
        assert(ps[i as int] == prop);
        let align = prop.align();
        proof {
            lemma_round_up_properties(spec_packed_end(ps, i as int), prop.spec_align());
        }
        let rem = total % align;
        if rem != 0 {
            total = total + (align - rem);
        }
        assert(total == spec_offset_of(ps, i as int));
        offsets.push(total);
        total = total + prop.size();
        assert(total == spec_packed_end(ps, i as int + 1));
    }
    proof {
        lemma_round_up_properties(spec_packed_end(ps, n as int), 16);
    }
    let rem = total % 16;
    if rem != 0 {
        total = total + (16 - rem);
    }
    assert(total == spec_uniform_size(ps));
    (offsets, total)
}

/// The uniform property a type keyword denotes, if recognized.
pub open spec fn spec_uniform_property_from(s: Seq<char>) -> Option<UniformProperty> {
    if s == "float"@ {
        Some(UniformProperty::Float)
    } else if s == "vec2"@ {
        Some(UniformProperty::Vec2)
    } else if s == "vec3"@ {
        Some(UniformProperty::Vec3)
    } else if s == "vec4"@ {
        Some(UniformProperty::Vec4)
    } else if s == "mat3"@ {
        Some(UniformProperty::Mat3)
    } else if s == "mat4"@ {
        Some(UniformProperty::Mat4)
    } else {
        None
    }
}

/// Parse a uniform property type keyword.
pub fn uniform_property_from_str(s: &str) -> (r: Result<UniformProperty, ShaderParseError>)
    ensures
        r matches Ok(p) ==> spec_uniform_property_from(s@) == Some(p),
        r matches Err(e) ==> spec_uniform_property_from(s@) is None && e.parse_error@
            == "Unknown uniform property '"@ + s@ + "'"@,
{
    if str_eq(s, "float") {
        Ok(UniformProperty::Float)
    } else if str_eq(s, "vec2") {
        Ok(UniformProperty::Vec2)
    } else if str_eq(s, "vec3") {
        Ok(UniformProperty::Vec3)
    } else if str_eq(s, "vec4") {
        Ok(UniformProperty::Vec4)
    } else if str_eq(s, "mat3") {
        Ok(UniformProperty::Mat3)
    } else if str_eq(s, "mat4") {
        Ok(UniformProperty::Mat4)
    } else {
        Err(parse_error_around("Unknown uniform property '", s))
    }
}

/// A texture property of a shader: its dimensionality, and for 2D textures
/// the placeholder color a material shows until one is supplied.
#[derive(Clone, Copy, Debug, PartialEq, Eq, Structural)]
pub enum TextureProperty {
    Texture2D(TextureDefault),
    Texture3D,
    TextureCube,
}

impl TextureProperty {
    /// The dimensionality of textures bound to this property.
    pub open spec fn spec_kind(self) -> TextureKind {
        match self {
            TextureProperty::Texture2D(_) => TextureKind::D2,
            TextureProperty::Texture3D => TextureKind::D3,
            TextureProperty::TextureCube => TextureKind::Cube,
        }
    }

    /// The dimensionality of textures bound to this property.
    pub fn kind(&self) -> (r: TextureKind)
        ensures
            r == self.spec_kind(),
    {
        match self {
            TextureProperty::Texture2D(_) => TextureKind::D2,
            TextureProperty::Texture3D => TextureKind::D3,
            TextureProperty::TextureCube => TextureKind::Cube,
        }
    }
}

/// The placeholder color a default keyword denotes (`grey` is accepted as
/// `gray`), if recognized.
pub open spec fn spec_texture_default_from(s: Seq<char>) -> Option<TextureDefault> {
    if s == "white"@ {
        Some(TextureDefault::White)
    } else if s == "black"@ {
        Some(TextureDefault::Black)
    } else if s == "normal"@ {
        Some(TextureDefault::Normal)
    } else if s == "gray"@ {
        Some(TextureDefault::Gray)
    } else if s == "grey"@ {
        Some(TextureDefault::Gray)
    } else {
        None
    }
}

/// The texture property a description denotes: the type keyword must be
/// recognized, and a 2D texture must carry a recognized default keyword.
pub open spec fn spec_texture_property_of(td: TextureDescription) -> Option<TextureProperty> {
    if td.ty@ == "2D"@ {
        match td.default {
            Option::None => None,
            Option::Some(ds) => match spec_texture_default_from(ds@) {
                Option::None => None,
                Option::Some(dd) => Some(TextureProperty::Texture2D(dd)),
            },
        }
    } else if td.ty@ == "3D"@ {
        Some(TextureProperty::Texture3D)
    } else if td.ty@ == "Cube"@ {
        Some(TextureProperty::TextureCube)
    } else {
        None
    }
}

/// Whether `msg` names what makes a texture property description invalid:
/// the unknown type keyword, the unknown default keyword, or the 2D
/// property whose required default is missing.
pub open spec fn spec_texture_error_named(td: TextureDescription, msg: Seq<char>) -> bool {
    ||| (td.ty@ == "2D"@ && td.default is None && msg
        == "Missing default value for texture2D property '"@ + td.name@ + "'"@)
    ||| (td.ty@ == "2D"@ && (td.default matches Some(ds) && spec_texture_default_from(ds@) is None
        && msg == "Unknown texture2D default value '"@ + ds@ + "'"@))
    ||| (td.ty@ != "2D"@ && td.ty@ != "3D"@ && td.ty@ != "Cube"@ && msg
        == "Unknown texture property '"@ + td.ty@ + "'"@)
}

/// Parse one texture property description.
pub fn texture_property_from_description(td: &TextureDescription) -> (r: Result<
    TextureProperty,
    ShaderParseError,
>)
    ensures
        r matches Ok(p) ==> spec_texture_property_of(*td) == Some(p),
        r is Err <==> spec_texture_property_of(*td) is None,
        r matches Err(e) ==> spec_texture_error_named(*td, e.parse_error@),
{
    if str_eq(td.ty.as_str(), "2D") {
        match &td.default {
            Option::None => Err(
                parse_error_around("Missing default value for texture2D property '", td.name.as_str()),
            ),
            Option::Some(ds) => {
                if str_eq(ds.as_str(), "white") {
                    Ok(TextureProperty::Texture2D(TextureDefault::White))
                } else if str_eq(ds.as_str(), "black") {
                    Ok(TextureProperty::Texture2D(TextureDefault::Black))
                } else if str_eq(ds.as_str(), "normal") {
                    Ok(TextureProperty::Texture2D(TextureDefault::Normal))
                } else if str_eq(ds.as_str(), "gray") {
                    Ok(TextureProperty::Texture2D(TextureDefault::Gray))
                } else if str_eq(ds.as_str(), "grey") {
                    Ok(TextureProperty::Texture2D(TextureDefault::Gray))
                } else {
                    Err(parse_error_around("Unknown texture2D default value '", ds.as_str()))
                }
            },
        }
    } else if str_eq(td.ty.as_str(), "3D") {
        Ok(TextureProperty::Texture3D)
    } else if str_eq(td.ty.as_str(), "Cube") {
        Ok(TextureProperty::TextureCube)
    } else {
        Err(parse_error_around("Unknown texture property '", td.ty.as_str()))
    }
}

/// One rendering pass of a shader: a tag, a vertex and a fragment program
/// source path, preprocessor definitions, and fixed-function state.
#[derive(Debug)]
pub struct SubShader {
    pub tag: String,
    pub options: SubShaderOption,
    pub vs_file: String,
    pub fs_file: String,
    pub shader_definition: Vec<(String, Option<String>)>,
}

impl SubShader {
    /// Assemble a sub-shader pass from its parts.
    pub fn new(
        name: String,
        options: SubShaderOption,
        vs_file: String,
        fs_file: String,
        shader_definition: Vec<(String, Option<String>)>,
    ) -> (r: SubShader)
        ensures
            r.tag == name,
            r.options == options,
            r.vs_file == vs_file,
            r.fs_file == fs_file,
            r.shader_definition == shader_definition,
    {
        SubShader { tag: name, options, vs_file, fs_file, shader_definition }
    }
}

impl SubShader {
    /// The render-pipeline description for this pass over the given shader:
    /// the four-slot layout (the shader's own bind group, then object,
    /// camera and light), the fixed mesh-vertex input and this pass's
    /// fixed-function state. Requires the shader to have been built first;
    /// before that the call fails.
    pub fn render_pipeline(
        &self,
        shader: &Shader,
        color_format: crate::texture::TextureFormat,
        depth_stencil_format: crate::texture::TextureFormat,
    ) -> (r: Result<crate::pipeline::RenderPipelineDesc, crate::state::ResourceStateError>)
        ensures
            r is Ok <==> shader.built(),
            r matches Ok(d) ==> crate::pipeline::spec_forward_pipeline_ok(
                d,
                self.options,
                color_format,
                depth_stencil_format,
            ),
    {
        if shader.bind_group_layout.is_none() {
            return Err(crate::state::ResourceStateError);
        }
        let mut bind_group_slots: Vec<crate::pipeline::PipelineBindGroupSlot> = Vec::new();
        bind_group_slots.push(crate::pipeline::PipelineBindGroupSlot::ShaderSpecific);
        bind_group_slots.push(crate::pipeline::PipelineBindGroupSlot::Object);
        bind_group_slots.push(crate::pipeline::PipelineBindGroupSlot::Camera);
        bind_group_slots.push(crate::pipeline::PipelineBindGroupSlot::Light);
        let mut vertex_buffers: Vec<crate::vertex::VertexBufferLayout> = Vec::new();
        vertex_buffers.push(crate::vertex::mesh_vertex_layout());
        proof {
            assert(bind_group_slots@ =~= seq![
                crate::pipeline::PipelineBindGroupSlot::ShaderSpecific,
                crate::pipeline::PipelineBindGroupSlot::Object,
                crate::pipeline::PipelineBindGroupSlot::Camera,
                crate::pipeline::PipelineBindGroupSlot::Light,
            ]);
        }
        Ok(
            crate::pipeline::RenderPipelineDesc {
                bind_group_slots,
                vertex_buffers,
                color_target: crate::pipeline::ColorTargetState {
                    format: color_format,
                    color_blend: self.options.color_blend,
                    alpha_blend: self.options.alpha_blend,
                    write_mask: self.options.write_mask,
                },
                primitive: crate::pipeline::PrimitiveState {
                    topology: crate::pipeline::PrimitiveTopology::TriangleList,
                    front_face: self.options.front_face,
                    cull_mode: self.options.cull_mode,
                },
                depth_stencil: Some(
                    crate::pipeline::DepthStencilState {
                        format: depth_stencil_format,
                        depth_write_enabled: self.options.depth_write,
                        depth_compare: self.options.depth_compare,
                        stencil: self.options.stencil,
                    },
                ),
                sample_count: 1,
            },
        )
    }
}

/// The tags of a sequence of sub-shaders.
pub open spec fn spec_sub_shader_tags(subs: Seq<SubShader>) -> Seq<Seq<char>> {
    subs.map_values(|s: SubShader| s.tag@)
}

/// Whether the tags of a sequence of sub-shaders are pairwise distinct —
/// the invariant every shader keeps for its passes.
pub open spec fn spec_sub_shader_tags_unique(subs: Seq<SubShader>) -> bool {
    forall|i: int, j: int| 0 <= i < j < subs.len() ==> (#[trigger] subs[i]).tag@ != (
    #[trigger] subs[j]).tag@
}

/// Whether all tags in a sequence of sub-shader descriptions are distinct.
pub open spec fn spec_desc_tags_distinct(subs: Seq<crate::description::SubShaderDescription>) -> bool {
    forall|i: int, j: int| 0 <= i < j < subs.len() ==> subs[i].tag@ != subs[j].tag@
}

/// The bind-group layout of a shader: the uniform block at binding 0, then
/// for the texture property at index `j` its view at binding `2j + 1` and
/// its sampler at binding `2j + 2`. Every entry sits at the binding equal to
/// its position.
pub open spec fn spec_layout_entries(tex: Seq<(String, TextureProperty)>) -> Seq<
    BindGroupLayoutEntry,
> {
    Seq::new(1 + 2 * tex.len(), |i: int| if i == 0 {
        BindGroupLayoutEntry { binding: 0, ty: BindingType::UniformBuffer }
    } else if (i - 1) % 2 == 0 {
        BindGroupLayoutEntry {
            binding: i as u32,
            ty: BindingType::Texture { view_dimension: tex[(i - 1) / 2].1.spec_kind() },
        }
    } else {
        BindGroupLayoutEntry { binding: i as u32, ty: BindingType::Sampler }
    })
}

/// A data-driven shader: named, with ordered uniform properties, texture
/// properties with stable binding slots, and a set of tagged passes. Built
/// once before use; building computes the uniform layout and the bind-group
/// layout.
#[derive(Debug)]
pub struct Shader {
    pub name: String,
    pub uniform_properties: Vec<(String, UniformProperty)>,
    pub uniform_offsets: Vec<usize>,
    pub uniform_size: usize,
    pub texture_properties: Vec<(String, TextureProperty)>,
    pub sub_shaders: Vec<SubShader>,
    pub bind_group_layout: Option<Vec<BindGroupLayoutEntry>>,
}

impl Shader {
    /// Whether the shader's layouts have been built.
    pub open spec fn built(self) -> bool {
        self.bind_group_layout is Some
    }

    /// The property types of the uniform property list.
    pub open spec fn spec_props(self) -> Seq<UniformProperty> {
        uniform_props_of(self.uniform_properties@)
    }

    /// The names of the uniform properties.
    pub open spec fn spec_uniform_keys(self) -> Seq<Seq<char>> {
        self.uniform_properties@.map_values(|p: (String, UniformProperty)| p.0@)
    }

    /// The names of the texture properties.
    pub open spec fn spec_texture_keys(self) -> Seq<Seq<char>> {
        self.texture_properties@.map_values(|p: (String, TextureProperty)| p.0@)
    }

    /// Well-formedness: property counts fit the machine limits; once built,
    /// the stored offsets, total size and layout entries are exactly the
    /// computed layout, and before building they are empty.
    pub open spec fn wf(self) -> bool {
        &&& self.uniform_properties@.len() <= usize::MAX / 80
        &&& self.texture_properties@.len() <= 0x7fff_ffff
        &&& self.built() ==> {
            &&& self.uniform_offsets@.len() == self.uniform_properties@.len()
            &&& forall|i: int|
                0 <= i < self.uniform_properties@.len() ==> self.uniform_offsets@[i]
                    == spec_offset_of(self.spec_props(), i)
            &&& self.uniform_size == spec_uniform_size(self.spec_props())
            &&& self.bind_group_layout->Some_0@ == spec_layout_entries(self.texture_properties@)
        }
        &&& !self.built() ==> {
            &&& self.uniform_offsets@.len() == 0
            &&& self.uniform_size == 0
        }
    }

    /// Assemble an unbuilt shader from validated parts.
    pub fn new(
        name: String,
        uniform_properties: Vec<(String, UniformProperty)>,
        texture_properties: Vec<(String, TextureProperty)>,
        sub_shaders: Vec<SubShader>,
    ) -> (r: Shader)
        requires
            uniform_properties@.len() <= usize::MAX / 80,
            texture_properties@.len() <= 0x7fff_ffff,
        ensures
            r.name == name,
            r.uniform_properties == uniform_properties,
            r.texture_properties == texture_properties,
            r.sub_shaders == sub_shaders,
            !r.built(),
            r.uniform_size == 0,
            r.wf(),
    {
        Shader {
            name,
            uniform_properties,
            uniform_offsets: Vec::new(),
            uniform_size: 0,
            texture_properties,
            sub_shaders,
            bind_group_layout: None,
        }
    }

    /// Compute the uniform layout and the bind-group layout. After this call
    /// the shader is built; its sub-shader programs are compiled by the GPU
    /// collaborator against the same description.
    pub fn build(&mut self)
        requires
            old(self).wf(),
        ensures
            final(self).wf(),
            final(self).built(),
            final(self).name == old(self).name,
            final(self).uniform_properties == old(self).uniform_properties,
            final(self).texture_properties == old(self).texture_properties,
            final(self).sub_shaders == old(self).sub_shaders,
    {
        proof {
            let m = usize::MAX as int;
            assert(80 * (m / 80) <= m) by (nonlinear_arith)
                requires
                    m >= 0,
            ;
        }
        let (offsets, size) = compute_uniform_layout(&self.uniform_properties);
        self.uniform_offsets = offsets;
        self.uniform_size = size;

        let ghost tex = self.texture_properties@;
        let mut entries: Vec<BindGroupLayoutEntry> = Vec::new();
        entries.push(crate::graphics::uniform_bind_group_entry(0));
        let n = self.texture_properties.len();
        for j in 0..n
            invariant
                n == tex.len(),
                tex == self.texture_properties@,
                n <= 0x7fff_ffff,
                entries@.len() == 1 + 2 * j,
                forall|i: int|
                    0 <= i < 1 + 2 * j ==> entries@[i] == spec_layout_entries(tex)[i],
        {
            let dim = self.texture_properties[j].1.kind();
            let view_binding = (2 * j + 1) as u32;
            let sampler_binding = (2 * j + 2) as u32;
            entries.push(crate::graphics::texture_bind_group_entry(view_binding, dim));
            entries.push(crate::graphics::sampler_bind_group_entry(sampler_binding));
        }
        self.bind_group_layout = Some(entries);
        proof {
            assert(self.bind_group_layout->Some_0@ =~= spec_layout_entries(tex));
        }
    }

    /// The byte offset stored for a uniform property name: the offset of the
    /// first property with that name, or nothing before building or for an
    /// unknown name.
    pub open spec fn spec_offset_lookup(self, name: Seq<char>) -> Option<usize> {
        let i = spec_first_index(self.spec_uniform_keys(), name);
        if i < 0 || i >= self.uniform_offsets@.len() {
            None
        } else {
            Some(self.uniform_offsets@[i])
        }
    }

    /// Look up the byte offset of a uniform property by name. Unknown names
    /// yield nothing; callers treat that as "skip this write".
    pub fn get_uniform_offset(&self, name: &str) -> (r: Option<usize>)
        ensures
            r == self.spec_offset_lookup(name@),
    {
        let ghost keys = self.spec_uniform_keys();
        let n = if self.uniform_offsets.len() <= self.uniform_properties.len() {
            self.uniform_offsets.len()
        } else {
            self.uniform_properties.len()
        };
        for j in 0..n
            invariant
                keys == self.spec_uniform_keys(),
                n <= self.uniform_offsets@.len(),
                n <= keys.len(),
                n == if self.uniform_offsets@.len() <= keys.len() {
                    self.uniform_offsets@.len() as int
                } else {
                    keys.len() as int
                },
                forall|k: int| 0 <= k < j ==> keys[k] != name@,
        {
            assert(keys[j as int] == self.uniform_properties@[j as int].0@);
            if str_eq(self.uniform_properties[j].0.as_str(), name) {
                proof {
                    lemma_first_index_found(keys, name@, j as int);
                }
                return Some(self.uniform_offsets[j]);
            }
        }
        proof {
            lemma_first_index_valid(keys, name@);
        }
        None
    }

    /// The texture slot index stored for a texture property name: its
    /// declaration position, or nothing for an unknown name.
    pub open spec fn spec_texture_index(self, name: Seq<char>) -> Option<u32> {
        let i = spec_first_index(self.spec_texture_keys(), name);
        if i < 0 {
            None
        } else {
            Some(i as u32)
        }
    }

    /// Look up the 0-based slot index of a texture property by name. The
    /// texture view of slot `i` binds at `2i + 1` and its sampler at
    /// `2i + 2`.
    pub fn get_texture_index(&self, name: &str) -> (r: Option<u32>)
        ensures
            r == self.spec_texture_index(name@),
    {
        let ghost keys = self.spec_texture_keys();
        let n = self.texture_properties.len();
        for j in 0..n
            invariant
                keys == self.spec_texture_keys(),
                n == self.texture_properties@.len(),
                keys.len() == n,
                forall|k: int| 0 <= k < j ==> keys[k] != name@,
        {
            assert(keys[j as int] == self.texture_properties@[j as int].0@);
            if str_eq(self.texture_properties[j].0.as_str(), name) {
                proof {
                    lemma_first_index_found(keys, name@, j as int);
                }
                return Some(j as u32);
            }
        }
        proof {
            lemma_first_index_none(keys, name@);
        }
        None
    }

    /// The declared texture property stored under a name, if any.
    pub open spec fn spec_texture_property(self, name: Seq<char>) -> Option<TextureProperty> {
        let i = spec_first_index(self.spec_texture_keys(), name);
        if i < 0 {
            None
        } else {
            Some(self.texture_properties@[i].1)
        }
    }

    /// The bind-group binding of a texture property's view: `2i + 1` for
    /// slot index `i` (its sampler follows immediately at `2i + 2`).
    pub fn binding_of(&self, name: &str) -> (r: Option<u32>)
        requires
            self.wf(),
        ensures
            ({
                match self.spec_texture_index(name@) {
                    Option::Some(i) => r == Some((2 * i + 1) as u32),
                    Option::None => r is None,
                }
            }),
    {
        match self.get_texture_index(name) {
            Option::Some(i) => {
                proof {
                    lemma_first_index_valid(self.spec_texture_keys(), name@);
                }
                Some(2 * i + 1)
            },
            Option::None => None,
        }
    }

    /// The placeholder texture a material shows for a 2D texture property
    /// until one is supplied; properties of other kinds carry no default.
    pub fn default_value_for(&self, name: &str) -> (r: Option<crate::texture::Texture>)
        ensures
            ({
                match self.spec_texture_property(name@) {
                    Option::Some(TextureProperty::Texture2D(d)) => r matches Some(t)
                        && t.is_placeholder_1x1(d),
                    _ => r is None,
                }
            }),
    {
        let ghost keys = self.spec_texture_keys();
        let n = self.texture_properties.len();
        for j in 0..n
            invariant
                keys == self.spec_texture_keys(),
                n == self.texture_properties@.len(),
                keys.len() == n,
                forall|k: int| 0 <= k < j ==> keys[k] != name@,
        {
            assert(keys[j as int] == self.texture_properties@[j as int].0@);
            if str_eq(self.texture_properties[j].0.as_str(), name) {
                proof {
                    lemma_first_index_found(keys, name@, j as int);
                }
                return match self.texture_properties[j].1 {
                    TextureProperty::Texture2D(d) => match d {
                        TextureDefault::White => Some(crate::texture::Texture::white1x1()),
                        TextureDefault::Black => Some(crate::texture::Texture::black1x1()),
                        TextureDefault::Gray => Some(crate::texture::Texture::gray1x1()),
                        TextureDefault::Normal => Some(crate::texture::Texture::normal1x1()),
                    },
                    TextureProperty::Texture3D => None,
                    TextureProperty::TextureCube => None,
                };
            }
        }
        proof {
            lemma_first_index_none(keys, name@);
        }
        None
    }

    /// The position of the first sub-shader with the given tag, if any.
    pub open spec fn spec_sub_shader_index(self, tag: Seq<char>) -> int {
        spec_first_index(spec_sub_shader_tags(self.sub_shaders@), tag)
    }

    /// Find the pass with the given tag. A missing tag is a soft miss:
    /// shaders may legitimately omit passes.
    pub fn find_sub_shader(&self, tag: &str) -> (r: Option<&SubShader>)
        ensures
            r matches Some(s) ==> self.spec_sub_shader_index(tag@) >= 0 && *s
                == self.sub_shaders@[self.spec_sub_shader_index(tag@)],
            r is None <==> self.spec_sub_shader_index(tag@) < 0,
    {
        let ghost keys = spec_sub_shader_tags(self.sub_shaders@);
        let n = self.sub_shaders.len();
        for j in 0..n
            invariant
                keys == spec_sub_shader_tags(self.sub_shaders@),
                n == self.sub_shaders@.len(),
                keys.len() == n,
                forall|k: int| 0 <= k < j ==> keys[k] != tag@,
        {
            assert(keys[j as int] == self.sub_shaders@[j as int].tag@);
            if str_eq(self.sub_shaders[j].tag.as_str(), tag) {
                proof {
                    lemma_first_index_found(keys, tag@, j as int);
                }
                return Some(&self.sub_shaders[j]);
            }
        }
        proof {
            lemma_first_index_none(keys, tag@);
        }
        None
    }
}

/// Texture binding density: when a shader's declared texture property
/// names are distinct, the slot index assigned to the property declared at
/// position `i` is exactly `i` — so the assigned indices are exactly
/// 0 through N-1 — and, once the shader is built, the property's view
/// binds at `2i + 1` and its sampler at `2i + 2` in the bind-group layout.
pub proof fn lemma_texture_binding_density(s: Shader)
    requires
        forall|i: int, j: int|
            0 <= i < j < s.texture_properties@.len() ==> (#[trigger] s.texture_properties@[i]).0@
                != (#[trigger] s.texture_properties@[j]).0@,
    ensures
        forall|i: int|
            0 <= i < s.texture_properties@.len() ==> s.spec_texture_index(
                (#[trigger] s.texture_properties@[i]).0@,
            ) == Some(i as u32),
        s.wf() && s.built() ==> {
            let entries = s.bind_group_layout->Some_0@;
            &&& entries.len() == 1 + 2 * s.texture_properties@.len()
            &&& forall|i: int|
                0 <= i < s.texture_properties@.len() ==> (#[trigger] entries[2 * i + 1]).binding
                    == 2 * i + 1 && entries[2 * i + 2].binding == 2 * i + 2
        },
{
    let keys = s.spec_texture_keys();
    assert forall|i: int| 0 <= i < s.texture_properties@.len() implies s.spec_texture_index(
        (#[trigger] s.texture_properties@[i]).0@,
    ) == Some(i as u32) by {
        assert(keys[i] == s.texture_properties@[i].0@);
        assert forall|j: int| 0 <= j < i implies keys[j] != keys[i] by {
            assert(keys[j] == s.texture_properties@[j].0@);
        }
        lemma_first_index_found(keys, keys[i], i);
    }
    if s.wf() && s.built() {
        assert forall|i: int| 0 <= i < s.texture_properties@.len() implies (#[trigger] s
            .bind_group_layout->Some_0@[2 * i + 1]).binding == 2 * i + 1
            && s.bind_group_layout->Some_0@[2 * i + 2].binding == 2 * i + 2 by {
            assert((2 * i + 1 - 1) % 2 == 0 && (2 * i + 2 - 1) % 2 == 1) by (nonlinear_arith);
        }
    }
}

/// The compilation stage a shader-source file extension denotes, if
/// recognized.
#[derive(Clone, Copy, Debug, PartialEq, Eq, Structural)]
pub enum ShaderStage {
    Vertex,
    Fragment,
    Compute,
}

/// The stage a source-file extension denotes: `vert`, `frag` or `comp`.
pub open spec fn spec_shader_stage_from_extension(s: Seq<char>) -> Option<ShaderStage> {
    if s == "vert"@ {
        Some(ShaderStage::Vertex)
    } else if s == "frag"@ {
        Some(ShaderStage::Fragment)
    } else if s == "comp"@ {
        Some(ShaderStage::Compute)
    } else {
        None
    }
}

/// Map a shader-source file extension to its compilation stage; any other
/// extension is unrecognized and the caller treats the file as unusable.
pub fn shader_stage_from_extension(ext: &str) -> (r: Option<ShaderStage>)
    ensures
        r == spec_shader_stage_from_extension(ext@),
{
    if str_eq(ext, "vert") {
        Some(ShaderStage::Vertex)
    } else if str_eq(ext, "frag") {
        Some(ShaderStage::Fragment)
    } else if str_eq(ext, "comp") {
        Some(ShaderStage::Compute)
    } else {
        None
    }
}

/// Copy a preprocessor definition list.
fn clone_definitions(v: &Vec<(String, Option<String>)>) -> (r: Vec<(String, Option<String>)>)
    ensures
        r@ == v@,
{
    let mut out: Vec<(String, Option<String>)> = Vec::new();
    let n = v.len();
    for i in 0..n
        invariant
            n == v@.len(),
            out@.len() == i,
            forall|j: int| 0 <= j < i ==> out@[j] == v@[j],
    {
        let key = v[i].0.clone();
        let value = match &v[i].1 {
            Option::None => None,
            Option::Some(s) => Some(s.clone()),
        };
        out.push((key, value));
    }
    proof {
        assert(out@ =~= v@);
    }
    out
}

/// Insert a sub-shader, replacing an existing pass with the same tag so that
/// tags stay unique within a shader.
fn insert_sub_shader(subs: &mut Vec<SubShader>, sub: SubShader)
    ensures
        ({
            let i = spec_first_index(spec_sub_shader_tags(old(subs)@), sub.tag@);
            if i < 0 {
                final(subs)@ == old(subs)@.push(sub)
            } else {
                final(subs)@ == old(subs)@.update(i, sub)
            }
        }),
{
    let ghost keys = spec_sub_shader_tags(subs@);
    let n = subs.len();
    for j in 0..n
        invariant
            keys == spec_sub_shader_tags(subs@),
            subs@ == old(subs)@,
            n == subs@.len(),
            keys.len() == n,
            forall|k: int| 0 <= k < j ==> keys[k] != sub.tag@,
    {
        assert(keys[j as int] == subs@[j as int].tag@);
        if str_eq(subs[j].tag.as_str(), sub.tag.as_str()) {
            proof {
                lemma_first_index_found(keys, sub.tag@, j as int);
            }
            subs.set(j, sub);
            return ;
        }
    }
    proof {
        lemma_first_index_none(keys, sub.tag@);
    }
    subs.push(sub);
}

/// Whether a shader description is fully recognized: property counts within
/// machine limits and every type, default and raster keyword in its
/// recognized set.
pub open spec fn spec_description_ok(d: ShaderDescription) -> bool {
    &&& d.uniform_properties@.len() <= usize::MAX / 80
    &&& d.texture_properties@.len() <= 0x7fff_ffff
    &&& forall|i: int|
        0 <= i < d.uniform_properties@.len() ==> spec_uniform_property_from(
            #[trigger] d.uniform_properties@[i].0@,
        ) is Some
    &&& forall|i: int|
        0 <= i < d.texture_properties@.len() ==> spec_texture_property_of(
            #[trigger] d.texture_properties@[i],
        ) is Some
    &&& forall|i: int|
        0 <= i < d.sub_shaders@.len() ==> spec_sub_shader_option_of(
            #[trigger] d.sub_shaders@[i],
        ) is Some
}

/// Whether `msg` names what makes a whole shader description invalid: a
/// property count past the machine limit, or some unrecognized type,
/// default or raster keyword quoted in the parsers' exact wording.
pub open spec fn spec_description_error_named(d: ShaderDescription, msg: Seq<char>) -> bool {
    ||| (d.uniform_properties@.len() > usize::MAX / 80 && msg == "Too many uniform properties"@)
    ||| (d.texture_properties@.len() > 0x7fff_ffff && msg == "Too many texture properties"@)
    ||| (exists|i: int|
        0 <= i < d.uniform_properties@.len() && spec_uniform_property_from(
            (#[trigger] d.uniform_properties@[i]).0@,
        ) is None && msg == "Unknown uniform property '"@ + d.uniform_properties@[i].0@ + "'"@)
    ||| (exists|i: int|
        0 <= i < d.texture_properties@.len() && spec_texture_property_of(
            #[trigger] d.texture_properties@[i],
        ) is None && spec_texture_error_named(d.texture_properties@[i], msg))
    ||| (exists|i: int|
        0 <= i < d.sub_shaders@.len() && spec_sub_shader_option_of(
            #[trigger] d.sub_shaders@[i],
        ) is None && crate::state::spec_sub_shader_error_named(d.sub_shaders@[i], msg))
}

impl Shader {
    /// Build an unbuilt shader from a declarative description, validating
    /// every field and failing with a descriptive error naming the first
    /// unrecognized value. When the description's pass tags are distinct the
    /// passes carry over in order; a repeated tag replaces its predecessor,
    /// so tags are always unique in the result.
    pub fn from_description(d: &ShaderDescription) -> (r: Result<Shader, ShaderParseError>)
        ensures
            r is Ok <==> spec_description_ok(*d),
            r matches Err(e) ==> spec_description_error_named(*d, e.parse_error@),
            r matches Ok(s) ==> {
                &&& s.wf()
                &&& !s.built()
                &&& spec_sub_shader_tags_unique(s.sub_shaders@)
                &&& s.name == d.name
                &&& s.uniform_properties@.len() == d.uniform_properties@.len()
                &&& forall|i: int|
                    0 <= i < d.uniform_properties@.len()
                        ==> (#[trigger] s.uniform_properties@[i]).0@
                        == d.uniform_properties@[i].1@ && s.uniform_properties@[i].1
                        == spec_uniform_property_from(d.uniform_properties@[i].0@)->Some_0
                &&& s.texture_properties@.len() == d.texture_properties@.len()
                &&& forall|i: int|
                    0 <= i < d.texture_properties@.len()
                        ==> (#[trigger] s.texture_properties@[i]).0@
                        == d.texture_properties@[i].name@ && s.texture_properties@[i].1
                        == spec_texture_property_of(d.texture_properties@[i])->Some_0
                &&& spec_desc_tags_distinct(d.sub_shaders@) ==> {
                    &&& s.sub_shaders@.len() == d.sub_shaders@.len()
                    &&& forall|i: int|
                        0 <= i < d.sub_shaders@.len() ==> {
                            &&& (#[trigger] s.sub_shaders@[i]).tag@ == d.sub_shaders@[i].tag@
                            &&& s.sub_shaders@[i].options == spec_sub_shader_option_of(
                                d.sub_shaders@[i],
                            )->Some_0
                            &&& s.sub_shaders@[i].vs_file@ == d.sub_shaders@[i].vs@
                            &&& s.sub_shaders@[i].fs_file@ == d.sub_shaders@[i].fs@
                            &&& s.sub_shaders@[i].shader_definition@
                                == d.sub_shaders@[i].definitions@
                        }
                }
            },
    {
        if d.uniform_properties.len() > usize::MAX / 80 {
            return Err(
                ShaderParseError { parse_error: "Too many uniform properties".to_owned() },
            );
        }
        if d.texture_properties.len() > 0x7fff_ffff {
            return Err(
                ShaderParseError { parse_error: "Too many texture properties".to_owned() },
            );
        }
        let mut uniform_properties: Vec<(String, UniformProperty)> = Vec::new();
        let nu = d.uniform_properties.len();
        for i in 0..nu
            invariant
                nu == d.uniform_properties@.len(),
                uniform_properties@.len() == i,
                forall|j: int|
                    0 <= j < i ==> spec_uniform_property_from(
                        #[trigger] d.uniform_properties@[j].0@,
                    ) is Some,
                forall|j: int|
                    0 <= j < i ==> (#[trigger] uniform_properties@[j]).0@
                        == d.uniform_properties@[j].1@ && uniform_properties@[j].1
                        == spec_uniform_property_from(d.uniform_properties@[j].0@)->Some_0,
        {
            let ty = match uniform_property_from_str(d.uniform_properties[i].0.as_str()) {
                Ok(t) => t,
                Err(e) => {
                    return Err(e);
                },
            };
            let prop_name = d.uniform_properties[i].1.clone();
            uniform_properties.push((prop_name, ty));
            proof {
                assert(uniform_properties@[i as int].0@ == d.uniform_properties@[i as int].1@);
                assert(uniform_properties@[i as int].1 == spec_uniform_property_from(
                    d.uniform_properties@[i as int].0@,
                )->Some_0);
            }
        }
        let mut texture_properties: Vec<(String, TextureProperty)> = Vec::new();
        let nt = d.texture_properties.len();
        for i in 0..nt
            invariant
                nt == d.texture_properties@.len(),
                texture_properties@.len() == i,
                forall|j: int|
                    0 <= j < i ==> spec_texture_property_of(
                        #[trigger] d.texture_properties@[j],
                    ) is Some,
                forall|j: int|
                    0 <= j < i ==> (#[trigger] texture_properties@[j]).0@
                        == d.texture_properties@[j].name@ && texture_properties@[j].1
                        == spec_texture_property_of(d.texture_properties@[j])->Some_0,
        {
            let ty = match texture_property_from_description(&d.texture_properties[i]) {
                Ok(t) => t,
                Err(e) => {
                    return Err(e);
                },
            };
            let prop_name = d.texture_properties[i].name.clone();
            texture_properties.push((prop_name, ty));
            proof {
                assert(texture_properties@[i as int].0@ == d.texture_properties@[i as int].name@);
                assert(texture_properties@[i as int].1 == spec_texture_property_of(
                    d.texture_properties@[i as int],
                )->Some_0);
            }
        }
        let mut sub_shaders: Vec<SubShader> = Vec::new();
        let ns = d.sub_shaders.len();
        for i in 0..ns
            invariant
                ns == d.sub_shaders@.len(),
                spec_sub_shader_tags_unique(sub_shaders@),
                forall|j: int|
                    0 <= j < i ==> spec_sub_shader_option_of(#[trigger] d.sub_shaders@[j]) is Some,
                spec_desc_tags_distinct(d.sub_shaders@) ==> {
                    &&& sub_shaders@.len() == i
                    &&& forall|j: int|
                        0 <= j < i ==> {
                            &&& (#[trigger] sub_shaders@[j]).tag@ == d.sub_shaders@[j].tag@
                            &&& sub_shaders@[j].options == spec_sub_shader_option_of(
                                d.sub_shaders@[j],
                            )->Some_0
                            &&& sub_shaders@[j].vs_file@ == d.sub_shaders@[j].vs@
                            &&& sub_shaders@[j].fs_file@ == d.sub_shaders@[j].fs@
                            &&& sub_shaders@[j].shader_definition@ == d.sub_shaders@[j].definitions@
                        }
                },
        {
            let desc = &d.sub_shaders[i];
            let options = match sub_shader_option_from_description(desc) {
                Ok(o) => o,
                Err(e) => {
                    return Err(e);
                },
            };
            let sub = SubShader::new(
                desc.tag.clone(),
                options,
                desc.vs.clone(),
                desc.fs.clone(),
                clone_definitions(&desc.definitions),
            );
            proof {
                if spec_desc_tags_distinct(d.sub_shaders@) {
                    assert forall|k: int|
                        0 <= k < sub_shaders@.len() implies spec_sub_shader_tags(sub_shaders@)[k]
                        != sub.tag@ by {
                        assert(spec_sub_shader_tags(sub_shaders@)[k] == sub_shaders@[k].tag@);
                        assert(sub_shaders@[k].tag@ == d.sub_shaders@[k].tag@);
                    }
                    lemma_first_index_none(spec_sub_shader_tags(sub_shaders@), sub.tag@);
                }
            }
            let ghost before = sub_shaders@;
            insert_sub_shader(&mut sub_shaders, sub);
            proof {
                let fi = spec_first_index(spec_sub_shader_tags(before), sub.tag@);
                lemma_first_index_valid(spec_sub_shader_tags(before), sub.tag@);
                if fi < 0 {
                    lemma_first_index_not_found(spec_sub_shader_tags(before), sub.tag@);
                    assert forall|k: int| 0 <= k < before.len() implies before[k].tag@
                        != sub.tag@ by {
                        assert(spec_sub_shader_tags(before)[k] == before[k].tag@);
                    }
                    assert(spec_sub_shader_tags_unique(sub_shaders@));
                } else {
                    assert(spec_sub_shader_tags(before)[fi] == before[fi].tag@);
                    assert(sub_shaders@ == before.update(fi, sub));
                    assert forall|a: int, b: int|
                        0 <= a < b < sub_shaders@.len() implies (#[trigger] sub_shaders@[a]).tag@
                        != (#[trigger] sub_shaders@[b]).tag@ by {
                        assert(sub_shaders@[a].tag@ == if a == fi {
                            before[fi].tag@
                        } else {
                            before[a].tag@
                        });
                        assert(sub_shaders@[b].tag@ == if b == fi {
                            before[fi].tag@
                        } else {
                            before[b].tag@
                        });
                    }
                }
            }
        }
        Ok(Shader::new(d.name.clone(), uniform_properties, texture_properties, sub_shaders))
    }
}

} // verus!
