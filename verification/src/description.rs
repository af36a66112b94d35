//! Plain-value shader descriptions, as an external configuration loader
//! hands them over: names, keyword strings and optional raster-state
//! fields, still unvalidated.

use vstd::prelude::*;

verus! {

/// Optional blend-equation keywords of one sub-shader description. `op`,
/// `src` and `dst` drive the color equation; the `_alpha` variants drive the
/// alpha equation.
#[derive(Debug)]
pub struct BlendDescription {
    pub op: Option<String>,
    pub src: Option<String>,
    pub dst: Option<String>,
    pub op_alpha: Option<String>,
    pub src_alpha: Option<String>,
    pub dst_alpha: Option<String>,
}

/// Optional stencil fields of one sub-shader description. Per-face states
/// are carried only as presence flags: their textual format is not
/// supported, and a description naming them is rejected.
#[derive(Debug)]
pub struct StencilDescription {
    pub read_mask: Option<u64>,
    pub write_mask: Option<u64>,
    pub front_present: bool,
    pub back_present: bool,
}

/// One sub-shader (pass) description: its tag, program sources, preprocessor
/// definitions and optional raster-state overrides.
#[derive(Debug)]
pub struct SubShaderDescription {
    pub tag: String,
    pub vs: String,
    pub fs: String,
    pub definitions: Vec<(String, Option<String>)>,
    pub cull: Option<String>,
    pub front_face: Option<String>,
    pub write_mask: Option<Vec<String>>,
    pub blend: Option<BlendDescription>,
    pub depth_write: Option<bool>,
    pub depth_compare: Option<String>,
    pub stencil: Option<StencilDescription>,
}

/// A texture property description: its type keyword, name, and (for 2D
/// textures) the default-placeholder keyword.
#[derive(Debug)]
pub struct TextureDescription {
    pub ty: String,
    pub name: String,
    pub default: Option<String>,
}

/// A whole shader description: name, ordered uniform properties as
/// `(type keyword, name)` pairs, texture properties, and sub-shaders.
#[derive(Debug)]
pub struct ShaderDescription {
    pub name: String,
    pub uniform_properties: Vec<(String, String)>,
    pub texture_properties: Vec<TextureDescription>,
    pub sub_shaders: Vec<SubShaderDescription>,
}

/// A material description: the material's name and the shader it
/// instantiates, both by name.
#[derive(Debug)]
pub struct MaterialDescription {
    pub name: String,
    pub shader: String,
}

} // verus!
