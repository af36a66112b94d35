//! Material instances: a named instantiation of a shader owning a raw
//! uniform byte buffer laid out by the shader's uniform layout, and the set
//! of bound textures, one per declared texture property.
//!
//! Setters look a property up by name; an unknown name is a silent no-op by
//! design, so callers may attempt optional properties across heterogeneous
//! shaders. Values are given as 32-bit bit patterns and land in the buffer
//! as their little-endian bytes.

use vstd::prelude::*;

use crate::bytes::copy_bytes;
use crate::bytes::spec_u32_le;
use crate::bytes::spec_write_bytes;
use crate::bytes::write_u32_le;
use crate::bytes::zero_bytes;
use crate::keyed::lemma_first_index_found;
use crate::keyed::lemma_first_index_valid;
use crate::keyed::spec_first_index;
use crate::keyed::str_eq;
use crate::shader::Shader;
use crate::shader::TextureProperty;
use crate::state::ResourceStateError;
use crate::texture::texture_eq;
use crate::texture::SamplerDescriptor;
use crate::texture::Texture;
use crate::texture::TextureDefault;
use crate::texture::TextureKind;

verus! {

/// What one bind-group slot of a built material holds.
#[derive(Clone, Debug)]
pub enum BindingResource {
    UniformBuffer,
    TextureView(Texture),
    TextureSampler(SamplerDescriptor),
}

/// One slot of a built material's resource group.
#[derive(Clone, Debug)]
pub struct BindGroupEntry {
    pub binding: u32,
    pub resource: BindingResource,
}

/// The GPU-visible snapshot a material build produces: the uniform bytes as
/// last pushed, and the bound resources at their binding slots.
#[derive(Clone, Debug)]
pub struct ResourceGroup {
    pub uniform_bytes: Vec<u8>,
    pub entries: Vec<BindGroupEntry>,
}

/// Whether a resource group snapshot matches the given uniform bytes and
/// texture list: the uniform buffer at binding 0, then for the texture at
/// slot `i` its view at binding `2i + 1` and its sampler at `2i + 2`.
pub open spec fn spec_resource_group_ok(
    rg: ResourceGroup,
    bytes: Seq<u8>,
    textures: Seq<(String, TextureKind, Texture)>,
) -> bool {
    &&& rg.uniform_bytes@ == bytes
    &&& rg.entries@.len() == 1 + 2 * textures.len()
    &&& rg.entries@[0].binding == 0
    &&& rg.entries@[0].resource is UniformBuffer
    &&& forall|i: int|
        0 <= i < textures.len() ==> {
            &&& (#[trigger] rg.entries@[1 + 2 * i]).binding == 2 * i + 1
            &&& rg.entries@[1 + 2 * i].resource matches BindingResource::TextureView(t)
                && texture_eq(t, textures[i].2)
            &&& rg.entries@[2 + 2 * i].binding == 2 * i + 2
            &&& rg.entries@[2 + 2 * i].resource matches BindingResource::TextureSampler(sd) && sd
                == textures[i].2.sampler
        }
}

/// Position of the first texture slot whose name and declared kind both
/// match, or -1 when none does.
pub open spec fn spec_texture_slot_index(
    ts: Seq<(String, TextureKind, Texture)>,
    name: Seq<char>,
    kind: TextureKind,
) -> int
    decreases ts.len(),
{
    if ts.len() == 0 {
        -1
    } else if ts[0].0@ == name && ts[0].1 == kind {
        0
    } else {
        let rest = spec_texture_slot_index(ts.drop_first(), name, kind);
        if rest < 0 {
            -1
        } else {
            rest + 1
        }
    }
}

/// A matching slot preceded only by non-matching slots is the first match.
proof fn lemma_texture_slot_found(
    ts: Seq<(String, TextureKind, Texture)>,
    name: Seq<char>,
    kind: TextureKind,
    i: int,
)
    requires
        0 <= i < ts.len(),
        forall|j: int| 0 <= j < i ==> !((#[trigger] ts[j]).0@ == name && ts[j].1 == kind),
        ts[i].0@ == name && ts[i].1 == kind,
    ensures
        spec_texture_slot_index(ts, name, kind) == i,
    decreases ts.len(),
{
    if i > 0 {
        lemma_texture_slot_found(ts.drop_first(), name, kind, i - 1);
    }
}

/// When no slot matches both name and kind, the lookup reports -1.
proof fn lemma_texture_slot_none(
    ts: Seq<(String, TextureKind, Texture)>,
    name: Seq<char>,
    kind: TextureKind,
)
    requires
        forall|j: int| 0 <= j < ts.len() ==> !((#[trigger] ts[j]).0@ == name && ts[j].1 == kind),
    ensures
        spec_texture_slot_index(ts, name, kind) == -1,
    decreases ts.len(),
{
    if ts.len() > 0 {
        lemma_texture_slot_none(ts.drop_first(), name, kind);
    }
}

/// The placeholder a material shows for a declared texture property until a
/// texture is supplied: the declared default for 2D properties, white for
/// the rest.
pub open spec fn spec_default_texture_ok(t: Texture, p: TextureProperty) -> bool {
    match p {
        TextureProperty::Texture2D(d) => t.is_placeholder_1x1(d),
        TextureProperty::Texture3D => t.is_placeholder_1x1(TextureDefault::White),
        TextureProperty::TextureCube => t.is_placeholder_1x1(TextureDefault::White),
    }
}

/// A named material instance: its shader (by name), the raw uniform byte
/// buffer, the name-to-offset table copied from the built shader, the bound
/// textures in declaration order, and the resource-group snapshot once
/// built.
#[derive(Debug)]
pub struct Material {
    pub name: String,
    pub shader: String,
    pub uniform_bytes: Vec<u8>,
    pub uniform_offsets: Vec<(String, usize)>,
    pub textures: Vec<(String, TextureKind, Texture)>,
    pub resource_group: Option<ResourceGroup>,
}

impl Material {
    /// Well-formedness: the texture count leaves room for the binding-slot
    /// arithmetic.
    pub open spec fn wf(self) -> bool {
        self.textures@.len() <= 0x7fff_ffff
    }

    /// The names in the offset table.
    pub open spec fn spec_offset_keys(self) -> Seq<Seq<char>> {
        self.uniform_offsets@.map_values(|p: (String, usize)| p.0@)
    }

    /// The byte offset stored for a uniform property name, if any.
    pub open spec fn spec_offset_lookup(self, name: Seq<char>) -> Option<usize> {
        let i = spec_first_index(self.spec_offset_keys(), name);
        if i < 0 {
            None
        } else {
            Some(self.uniform_offsets@[i].1)
        }
    }

    /// The uniform bytes after writing `data` for property `name`: written
    /// at the stored offset when the name is known and the write fits inside
    /// the buffer, unchanged otherwise.
    pub open spec fn spec_set_bytes(self, name: Seq<char>, data: Seq<u8>) -> Seq<u8> {
        spec_set_bytes_at(self.uniform_bytes@, self.spec_offset_lookup(name), data)
    }

    /// Whether `self` is a freshly instantiated material of shader `s`
    /// named `name`: a zeroed uniform buffer of the shader's uniform size,
    /// the shader's offset table, one placeholder texture per declared
    /// texture property, and no resource group yet.
    pub open spec fn is_fresh_instance_of(self, name: Seq<char>, s: Shader) -> bool {
        &&& self.wf()
        &&& self.name@ == name
        &&& self.shader@ == s.name@
        &&& self.uniform_bytes@ == Seq::new(s.uniform_size as nat, |i: int| 0u8)
        &&& self.uniform_offsets@.len() == s.uniform_offsets@.len()
        &&& forall|i: int|
            0 <= i < s.uniform_offsets@.len() ==> (#[trigger] self.uniform_offsets@[i]).0@
                == s.uniform_properties@[i].0@ && self.uniform_offsets@[i].1
                == s.uniform_offsets@[i]
        &&& self.textures@.len() == s.texture_properties@.len()
        &&& forall|i: int|
            0 <= i < s.texture_properties@.len() ==> (#[trigger] self.textures@[i]).0@
                == s.texture_properties@[i].0@ && self.textures@[i].1
                == s.texture_properties@[i].1.spec_kind() && spec_default_texture_ok(
                self.textures@[i].2,
                s.texture_properties@[i].1,
            )
        &&& self.resource_group is None
    }

    /// Instantiate a material from a built (or not yet built) shader: a
    /// zeroed uniform buffer of the shader's uniform size, the shader's
    /// offset table, and one placeholder texture per declared texture
    /// property.
    pub fn from_shader(name: String, shader: &Shader) -> (m: Material)
        requires
            shader.wf(),
        ensures
            m.is_fresh_instance_of(name@, *shader),
            m.name == name,
    {
        let uniform_bytes = zero_bytes(shader.uniform_size);
        let mut uniform_offsets: Vec<(String, usize)> = Vec::new();
        let n_offsets = shader.uniform_offsets.len();
        assert(n_offsets <= shader.uniform_properties@.len());
        for i in 0..n_offsets
            invariant
                n_offsets == shader.uniform_offsets@.len(),
                n_offsets <= shader.uniform_properties@.len(),
                uniform_offsets@.len() == i,
                forall|j: int|
                    0 <= j < i ==> (#[trigger] uniform_offsets@[j]).0@
                        == shader.uniform_properties@[j].0@ && uniform_offsets@[j].1
                        == shader.uniform_offsets@[j],
        {
            let prop_name = shader.uniform_properties[i].0.clone();
            uniform_offsets.push((prop_name, shader.uniform_offsets[i]));
        }
        let mut textures: Vec<(String, TextureKind, Texture)> = Vec::new();
        let n_tex = shader.texture_properties.len();
        for i in 0..n_tex
            invariant
                n_tex == shader.texture_properties@.len(),
                n_tex <= 0x7fff_ffff,
                textures@.len() == i,
                forall|j: int|
                    0 <= j < i ==> (#[trigger] textures@[j]).0@
                        == shader.texture_properties@[j].0@ && textures@[j].1
                        == shader.texture_properties@[j].1.spec_kind() && spec_default_texture_ok(
                        textures@[j].2,
                        shader.texture_properties@[j].1,
                    ),
        {
            let prop_name = shader.texture_properties[i].0.clone();
            let prop = shader.texture_properties[i].1;
            let kind = prop.kind();
            let default_tex = match prop {
                TextureProperty::Texture2D(d) => match d {
                    TextureDefault::White => Texture::white1x1(),
                    TextureDefault::Black => Texture::black1x1(),
                    TextureDefault::Gray => Texture::gray1x1(),
                    TextureDefault::Normal => Texture::normal1x1(),
                },
                TextureProperty::Texture3D => Texture::white1x1(),
                TextureProperty::TextureCube => Texture::white1x1(),
            };
            textures.push((prop_name, kind, default_tex));
        }
        Material {
            name,
            shader: shader.name.clone(),
            uniform_bytes,
            uniform_offsets,
            textures,
            resource_group: None,
        }
    }

    /// Look up the stored byte offset of a uniform property by name.
    fn find_offset(&self, name: &str) -> (r: Option<usize>)
        ensures
            r == self.spec_offset_lookup(name@),
    {
        let ghost keys = self.spec_offset_keys();
        let n = self.uniform_offsets.len();
        for j in 0..n
            invariant
                keys == self.spec_offset_keys(),
                n == self.uniform_offsets@.len(),
                keys.len() == n,
                forall|k: int| 0 <= k < j ==> keys[k] != name@,
        {
            assert(keys[j as int] == self.uniform_offsets@[j as int].0@);
            if str_eq(self.uniform_offsets[j].0.as_str(), name) {
                proof {
                    lemma_first_index_found(keys, name@, j as int);
                }
                return Some(self.uniform_offsets[j].1);
            }
        }
        proof {
            lemma_first_index_valid(keys, name@);
        }
        None
    }

    /// Write one 32-bit word for the named property, if known and in
    /// bounds.
    fn set_word(&mut self, name: &str, value: u32)
        ensures
            final(self).uniform_bytes@ == old(self).spec_set_bytes(name@, spec_u32_le(value)),
            final(self).name == old(self).name,
            final(self).shader == old(self).shader,
            final(self).uniform_offsets == old(self).uniform_offsets,
            final(self).textures == old(self).textures,
            final(self).resource_group == old(self).resource_group,
    {
        let len = self.uniform_bytes.len();
        match self.find_offset(name) {
            Option::Some(off) => {
                if 4 <= len && off <= len - 4 {
                    write_u32_le(&mut self.uniform_bytes, off, value);
                }
            },
            Option::None => {},
        }
    }

    /// Set a scalar property from the 32-bit bit pattern of its value. An
    /// unknown name leaves the buffer untouched.
    pub fn set_float(&mut self, name: &str, value: u32)
        ensures
            final(self).uniform_bytes@ == old(self).spec_set_bytes(name@, spec_u32_le(value)),
            final(self).name == old(self).name,
            final(self).shader == old(self).shader,
            final(self).uniform_offsets == old(self).uniform_offsets,
            final(self).textures == old(self).textures,
            final(self).resource_group == old(self).resource_group,
    {
        self.set_word(name, value);
    }

    /// Write a run of 32-bit words for the named property, if known and in
    /// bounds.
    fn set_values(&mut self, name: &str, words: Vec<u32>)
        requires
            words@.len() <= 16,
        ensures
            final(self).uniform_bytes@ == old(self).spec_set_bytes(name@, spec_words_le(words@)),
            final(self).name == old(self).name,
            final(self).shader == old(self).shader,
            final(self).uniform_offsets == old(self).uniform_offsets,
            final(self).textures == old(self).textures,
            final(self).resource_group == old(self).resource_group,
    {
        let len = self.uniform_bytes.len();
        let total = 4 * words.len();
        let ghost data = spec_words_le(words@);
        match self.find_offset(name) {
            Option::Some(off) => {
                if total <= len && off <= len - total {
                    let ghost bytes0 = self.uniform_bytes@;
                    let n = words.len();
                    for k in 0..n
                        invariant
                            n == words@.len(),
                            4 * n <= len,
                            off <= len - 4 * n,
                            len == self.uniform_bytes@.len(),
                            data == spec_words_le(words@),
                            self.uniform_bytes@ =~= spec_write_bytes(
                                bytes0,
                                off as int,
                                data.take(4 * k),
                            ),
                            self.name == old(self).name,
                            self.shader == old(self).shader,
                            self.uniform_offsets == old(self).uniform_offsets,
                            self.textures == old(self).textures,
                            self.resource_group == old(self).resource_group,
                    {
                        write_u32_le(&mut self.uniform_bytes, off + 4 * k, words[k]);
                        proof {
                            assert(self.uniform_bytes@ =~= spec_write_bytes(
                                bytes0,
                                off as int,
                                data.take(4 * (k + 1)),
                            ));
                        }
                    }
                    proof {
                        assert(data.take(4 * n as int) =~= data);
                        assert(self.uniform_bytes@ =~= spec_write_bytes(bytes0, off as int, data));
                    }
                }
            },
            Option::None => {},
        }
    }

    /// Set a 2-component vector property from the bit patterns of its
    /// components.
    pub fn set_vec2(&mut self, name: &str, value: [u32; 2])
        ensures
            final(self).uniform_bytes@ == old(self).spec_set_bytes(
                name@,
                spec_words_le(seq![value@[0], value@[1]]),
            ),
            final(self).name == old(self).name,
            final(self).shader == old(self).shader,
            final(self).uniform_offsets == old(self).uniform_offsets,
            final(self).textures == old(self).textures,
            final(self).resource_group == old(self).resource_group,
    {
        let mut words: Vec<u32> = Vec::new();
        words.push(value[0]);
        words.push(value[1]);
        proof {
            assert(words@ =~= seq![value@[0], value@[1]]);
        }
        self.set_values(name, words);
    }

    /// Set a 3-component vector property from the bit patterns of its
    /// components.
    pub fn set_vec3(&mut self, name: &str, value: [u32; 3])
        ensures
            final(self).uniform_bytes@ == old(self).spec_set_bytes(
                name@,
                spec_words_le(seq![value@[0], value@[1], value@[2]]),
            ),
            final(self).name == old(self).name,
            final(self).shader == old(self).shader,
            final(self).uniform_offsets == old(self).uniform_offsets,
            final(self).textures == old(self).textures,
            final(self).resource_group == old(self).resource_group,
    {
        let mut words: Vec<u32> = Vec::new();
        words.push(value[0]);
        words.push(value[1]);
        words.push(value[2]);
        proof {
            assert(words@ =~= seq![value@[0], value@[1], value@[2]]);
        }
        self.set_values(name, words);
    }

    /// Set a 4-component vector property from the bit patterns of its
    /// components.
    pub fn set_vec4(&mut self, name: &str, value: [u32; 4])
        ensures
            final(self).uniform_bytes@ == old(self).spec_set_bytes(
                name@,
                spec_words_le(seq![value@[0], value@[1], value@[2], value@[3]]),
            ),
            final(self).name == old(self).name,
            final(self).shader == old(self).shader,
            final(self).uniform_offsets == old(self).uniform_offsets,
            final(self).textures == old(self).textures,
            final(self).resource_group == old(self).resource_group,
    {
        let mut words: Vec<u32> = Vec::new();
        words.push(value[0]);
        words.push(value[1]);
        words.push(value[2]);
        words.push(value[3]);
        proof {
            assert(words@ =~= seq![value@[0], value@[1], value@[2], value@[3]]);
        }
        self.set_values(name, words);
    }

    /// Set a 3x3 matrix property from the bit patterns of its columns. Each
    /// column is stored as a 16-byte-aligned group of three components and a
    /// zero pad, 48 bytes in all.
    pub fn set_mat3(&mut self, name: &str, value: [[u32; 3]; 3])
        ensures
            final(self).uniform_bytes@ == old(self).spec_set_bytes(
                name@,
                spec_words_le(
                    seq![
                        value@[0]@[0], value@[0]@[1], value@[0]@[2], 0u32,
                        value@[1]@[0], value@[1]@[1], value@[1]@[2], 0u32,
                        value@[2]@[0], value@[2]@[1], value@[2]@[2], 0u32,
                    ],
                ),
            ),
            final(self).name == old(self).name,
            final(self).shader == old(self).shader,
            final(self).uniform_offsets == old(self).uniform_offsets,
            final(self).textures == old(self).textures,
            final(self).resource_group == old(self).resource_group,
    {
        let mut words: Vec<u32> = Vec::new();
        words.push(value[0][0]);
        words.push(value[0][1]);
        words.push(value[0][2]);
        words.push(0);
        words.push(value[1][0]);
        words.push(value[1][1]);
        words.push(value[1][2]);
        words.push(0);
        words.push(value[2][0]);
        words.push(value[2][1]);
        words.push(value[2][2]);
        words.push(0);
        proof {
            assert(words@ =~= seq![
                value@[0]@[0], value@[0]@[1], value@[0]@[2], 0u32,
                value@[1]@[0], value@[1]@[1], value@[1]@[2], 0u32,
                value@[2]@[0], value@[2]@[1], value@[2]@[2], 0u32,
            ]);
        }
        self.set_values(name, words);
    }

    /// Set a 4x4 matrix property from the bit patterns of its columns,
    /// 64 bytes column-major.
    pub fn set_mat4(&mut self, name: &str, value: [[u32; 4]; 4])
        ensures
            final(self).uniform_bytes@ == old(self).spec_set_bytes(
                name@,
                spec_words_le(
                    seq![
                        value@[0]@[0], value@[0]@[1], value@[0]@[2], value@[0]@[3],
                        value@[1]@[0], value@[1]@[1], value@[1]@[2], value@[1]@[3],
                        value@[2]@[0], value@[2]@[1], value@[2]@[2], value@[2]@[3],
                        value@[3]@[0], value@[3]@[1], value@[3]@[2], value@[3]@[3],
                    ],
                ),
            ),
            final(self).name == old(self).name,
            final(self).shader == old(self).shader,
            final(self).uniform_offsets == old(self).uniform_offsets,
            final(self).textures == old(self).textures,
            final(self).resource_group == old(self).resource_group,
    {
        let mut words: Vec<u32> = Vec::new();
        words.push(value[0][0]);
        words.push(value[0][1]);
        words.push(value[0][2]);
        words.push(value[0][3]);
        words.push(value[1][0]);
        words.push(value[1][1]);
        words.push(value[1][2]);
        words.push(value[1][3]);
        words.push(value[2][0]);
        words.push(value[2][1]);
        words.push(value[2][2]);
        words.push(value[2][3]);
        words.push(value[3][0]);
        words.push(value[3][1]);
        words.push(value[3][2]);
        words.push(value[3][3]);
        proof {
            assert(words@ =~= seq![
                value@[0]@[0], value@[0]@[1], value@[0]@[2], value@[0]@[3],
                value@[1]@[0], value@[1]@[1], value@[1]@[2], value@[1]@[3],
                value@[2]@[0], value@[2]@[1], value@[2]@[2], value@[2]@[3],
                value@[3]@[0], value@[3]@[1], value@[3]@[2], value@[3]@[3],
            ]);
        }
        self.set_values(name, words);
    }

    /// Bind a texture to a named texture property. The texture is accepted
    /// only when the name exists among the shader's declared texture
    /// properties and the declared type equals `kind`; any mismatch is
    /// silently dropped by design.
    pub fn set_texture(&mut self, name: &str, value: Texture, kind: TextureKind)
        ensures
            ({
                let i = spec_texture_slot_index(old(self).textures@, name@, kind);
                if i >= 0 {
                    final(self).textures@ == old(self).textures@.update(
                        i,
                        (old(self).textures@[i].0, kind, value),
                    )
                } else {
                    final(self).textures == old(self).textures
                }
            }),
            final(self).name == old(self).name,
            final(self).shader == old(self).shader,
            final(self).uniform_bytes == old(self).uniform_bytes,
            final(self).uniform_offsets == old(self).uniform_offsets,
            final(self).resource_group == old(self).resource_group,
    {
        let n = self.textures.len();
        for j in 0..n
            invariant
                n == self.textures@.len(),
                self == old(self),
                forall|k: int|
                    0 <= k < j ==> !((#[trigger] self.textures@[k]).0@ == name@
                        && self.textures@[k].1 == kind),
        {
            let name_matches = str_eq(self.textures[j].0.as_str(), name);
            let kind_matches = self.textures[j].1 == kind;
            if name_matches && kind_matches {
                proof {
                    lemma_texture_slot_found(self.textures@, name@, kind, j as int);
                }
                let slot_name = self.textures[j].0.clone();
                self.textures.set(j, (slot_name, kind, value));
                return ;
            }
        }
        proof {
            lemma_texture_slot_none(self.textures@, name@, kind);
        }
    }

    /// Snapshot the current uniform bytes and bound textures into the
    /// GPU-visible resource group: the uniform buffer at binding 0, each
    /// texture's view and sampler at the slot-derived bindings. Must run
    /// after the desired values are set and before the first draw; later
    /// mutation needs `update` (for uniform bytes) or another build.
    pub fn build(&mut self)
        requires
            old(self).wf(),
        ensures
            final(self).wf(),
            (final(self).resource_group matches Some(rg) && spec_resource_group_ok(
                rg,
                old(self).uniform_bytes@,
                old(self).textures@,
            )),
            final(self).name == old(self).name,
            final(self).shader == old(self).shader,
            final(self).uniform_bytes == old(self).uniform_bytes,
            final(self).uniform_offsets == old(self).uniform_offsets,
            final(self).textures == old(self).textures,
    {
        let mut entries: Vec<BindGroupEntry> = Vec::new();
        entries.push(BindGroupEntry { binding: 0, resource: BindingResource::UniformBuffer });
        let n = self.textures.len();
        for j in 0..n
            invariant
                n == self.textures@.len(),
                n <= 0x7fff_ffff,
                self == old(self),
                entries@.len() == 1 + 2 * j,
                entries@[0].binding == 0,
                entries@[0].resource is UniformBuffer,
                forall|i: int|
                    0 <= i < j ==> {
                        &&& (#[trigger] entries@[1 + 2 * i]).binding == 2 * i + 1
                        &&& entries@[1 + 2 * i].resource matches BindingResource::TextureView(t)
                            && texture_eq(t, self.textures@[i].2)
                        &&& entries@[2 + 2 * i].binding == 2 * i + 2
                        &&& entries@[2 + 2 * i].resource matches BindingResource::TextureSampler(
                        sd,
                        ) && sd == self.textures@[i].2.sampler
                    },
        {
            let view_binding = (2 * j + 1) as u32;
            let sampler_binding = (2 * j + 2) as u32;
            entries.push(
                BindGroupEntry {
                    binding: view_binding,
                    resource: BindingResource::TextureView(self.textures[j].2.duplicate()),
                },
            );
            entries.push(
                BindGroupEntry {
                    binding: sampler_binding,
                    resource: BindingResource::TextureSampler(self.textures[j].2.sampler),
                },
            );
        }
        let uniform_bytes = copy_bytes(&self.uniform_bytes);
        self.resource_group = Some(ResourceGroup { uniform_bytes, entries });
    }

    /// Push the current uniform bytes into the built resource group without
    /// rebuilding its structure; fails when `build` has not run.
    pub fn update(&mut self) -> (r: Result<(), ResourceStateError>)
        ensures
            r is Ok <==> old(self).resource_group is Some,
            r is Ok ==> (final(self).resource_group matches Some(rg) && rg.uniform_bytes@
                == old(self).uniform_bytes@ && rg.entries
                == old(self).resource_group->Some_0.entries),
            r is Err ==> final(self).resource_group is None,
            final(self).name == old(self).name,
            final(self).shader == old(self).shader,
            final(self).uniform_bytes == old(self).uniform_bytes,
            final(self).uniform_offsets == old(self).uniform_offsets,
            final(self).textures == old(self).textures,
    {
        match self.resource_group.take() {
            Option::None => Err(ResourceStateError),
            Option::Some(rg) => {
                let entries = rg.entries;
                let uniform_bytes = copy_bytes(&self.uniform_bytes);
                self.resource_group = Some(ResourceGroup { uniform_bytes, entries });
                Ok(())
            },
        }
    }
}

/// The concatenated little-endian encodings of a run of 32-bit words.
pub open spec fn spec_words_le(ws: Seq<u32>) -> Seq<u8> {
    Seq::new(4 * ws.len(), |i: int| spec_u32_le(ws[i / 4])[i % 4])
}

/// The bytes of a uniform buffer after one setter call, given the offset
/// the layout yielded for the property name: `data` written at the offset
/// when the name resolved and the write fits, the buffer untouched
/// otherwise.
pub open spec fn spec_set_bytes_at(bytes: Seq<u8>, lookup: Option<usize>, data: Seq<u8>) -> Seq<
    u8,
> {
    match lookup {
        Option::Some(off) => if off + data.len() <= bytes.len() {
            spec_write_bytes(bytes, off as int, data)
        } else {
            bytes
        },
        Option::None => bytes,
    }
}

/// Setter isolation: a setter whose property name the layout does not know
/// leaves the uniform byte buffer exactly unchanged.
pub proof fn lemma_setter_unknown_is_noop(bytes: Seq<u8>, data: Seq<u8>)
    ensures
        spec_set_bytes_at(bytes, None, data) == bytes,
{
}

/// Setter idempotence: writing a property and then overwriting it with a
/// second value of the same width leaves the buffer exactly as if only the
/// second write had happened.
pub proof fn lemma_setter_overwrite(
    bytes: Seq<u8>,
    lookup: Option<usize>,
    d1: Seq<u8>,
    d2: Seq<u8>,
)
    requires
        d1.len() == d2.len(),
    ensures
        spec_set_bytes_at(spec_set_bytes_at(bytes, lookup, d1), lookup, d2) == spec_set_bytes_at(
            bytes,
            lookup,
            d2,
        ),
{
    match lookup {
        Option::Some(off) => {
            if off + d1.len() <= bytes.len() {
                assert(spec_set_bytes_at(spec_set_bytes_at(bytes, lookup, d1), lookup, d2)
                    =~= spec_set_bytes_at(bytes, lookup, d2));
            }
        },
        Option::None => {},
    }
}

/// A setter for one property touches no byte outside that property's span:
/// every byte below the offset or at or above `offset + data.len()` keeps
/// its value.
pub proof fn lemma_setter_touches_only_span(bytes: Seq<u8>, off: usize, data: Seq<u8>)
    requires
        off + data.len() <= bytes.len(),
    ensures
        forall|i: int|
            0 <= i < bytes.len() && !(off <= i < off + data.len())
                ==> #[trigger] spec_set_bytes_at(bytes, Some(off), data)[i] == bytes[i],
{
}

} // verus!
