//! Reading shader descriptions out of JSON documents.
//!
//! The JSON tree itself is navigated through `serde_json`, behind trusted
//! wrappers that hand plain values back; everything that interprets those
//! values — required fields, keyword sets, layout computation — is the
//! verified logic of this crate. What a navigation call returns depends on
//! the opaque document, so the extraction functions promise the
//! well-formedness of what they build rather than a function of their
//! input.

use vstd::prelude::*;

use crate::description::BlendDescription;
use crate::description::MaterialDescription;
use crate::description::ShaderDescription;
use crate::description::StencilDescription;
use crate::description::SubShaderDescription;
use crate::description::TextureDescription;
use crate::material::Material;
use crate::registry::load_shader_set;
use crate::registry::Registry;
use crate::shader::Shader;
use crate::state::parse_error_around;
use crate::state::ShaderParseError;
use crate::texture::TextureFormat;

verus! {

/// Declares `serde_json::Value` — an arbitrary JSON tree — so it can stand
/// in signatures. Values stay opaque: everything read out of one comes
/// through the wrappers below.
#[verifier::external_type_specification]
#[verifier::external_body]
pub struct ExValue(serde_json::Value);

/// Relies on `serde_json::Value::as_str`: the string content when the value
/// is a JSON string. The copy is handed back owned.
#[verifier::external_body]
fn json_as_str(v: &serde_json::Value) -> Option<String> {
    match v.as_str() {
        Some(s) => Some(s.to_owned()),
        None => None,
    }
}

/// Relies on `serde_json::Value::get` with a string key: the named member
/// when the value is a JSON object that has it.
#[verifier::external_body]
fn json_get<'a>(v: &'a serde_json::Value, key: &str) -> Option<&'a serde_json::Value> {
    v.get(key)
}

/// Relies on `serde_json::Value::as_array`: the element list when the value
/// is a JSON array.
#[verifier::external_body]
fn json_as_array(v: &serde_json::Value) -> Option<&Vec<serde_json::Value>> {
    v.as_array()
}

/// Relies on `serde_json::Value::as_bool`: the boolean when the value is a
/// JSON boolean.
#[verifier::external_body]
fn json_as_bool(v: &serde_json::Value) -> Option<bool> {
    v.as_bool()
}

/// Relies on `serde_json::Value::as_u64`: the integer when the value is a
/// non-negative JSON integer that fits 64 bits.
#[verifier::external_body]
fn json_as_u64(v: &serde_json::Value) -> Option<u64> {
    v.as_u64()
}

/// Relies on `serde_json::Value::as_object` and `serde_json::Map::iter`:
/// the members of a JSON object as owned key/value pairs, in the map's
/// iteration order.
#[verifier::external_body]
fn json_object_entries(v: &serde_json::Value) -> Option<Vec<(String, serde_json::Value)>> {
    match v.as_object() {
        Some(m) => Some(m.iter().map(|(k, val)| (k.clone(), val.clone())).collect()),
        None => None,
    }
}

/// A required string member of a JSON object, or an error naming the field.
fn required_string_field(v: &serde_json::Value, key: &str) -> (r: Result<
    String,
    ShaderParseError,
>) {
    match json_get(v, key) {
        Option::Some(field) => match json_as_str(field) {
            Option::Some(s) => Ok(s),
            Option::None => Err(parse_error_around("Missing or invalid field '", key)),
        },
        Option::None => Err(parse_error_around("Missing or invalid field '", key)),
    }
}

/// An optional string member: absent stays absent, present but non-string
/// is an error naming the field.
fn optional_string_field(v: &serde_json::Value, key: &str) -> (r: Result<
    Option<String>,
    ShaderParseError,
>) {
    match json_get(v, key) {
        Option::None => Ok(None),
        Option::Some(field) => match json_as_str(field) {
            Option::Some(s) => Ok(Some(s)),
            Option::None => Err(parse_error_around("Missing or invalid field '", key)),
        },
    }
}

/// Read one `[type, name]` or `[type, name, default]` property entry.
fn extract_property_entry(v: &serde_json::Value) -> (r: Result<
    TextureDescription,
    ShaderParseError,
>) {
    let items = match json_as_array(v) {
        Option::Some(a) => a,
        Option::None => {
            return Err(parse_error_around("Malformed property entry in '", "properties"));
        },
    };
    if items.len() < 2 {
        return Err(parse_error_around("Malformed property entry in '", "properties"));
    }
    let ty = match json_as_str(&items[0]) {
        Option::Some(s) => s,
        Option::None => {
            return Err(parse_error_around("Malformed property entry in '", "properties"));
        },
    };
    let name = match json_as_str(&items[1]) {
        Option::Some(s) => s,
        Option::None => {
            return Err(parse_error_around("Malformed property entry in '", "properties"));
        },
    };
    let default = if items.len() > 2 {
        match json_as_str(&items[2]) {
            Option::Some(s) => Some(s),
            Option::None => {
                return Err(parse_error_around("Malformed property entry in '", "properties"));
            },
        }
    } else {
        None
    };
    Ok(TextureDescription { ty, name, default })
}

/// Read a sub-shader's optional blend object.
fn extract_blend(v: &serde_json::Value) -> (r: Result<BlendDescription, ShaderParseError>) {
    let op = match optional_string_field(v, "op") {
        Ok(s) => s,
        Err(e) => {
            return Err(e);
        },
    };
    let src = match optional_string_field(v, "src") {
        Ok(s) => s,
        Err(e) => {
            return Err(e);
        },
    };
    let dst = match optional_string_field(v, "dst") {
        Ok(s) => s,
        Err(e) => {
            return Err(e);
        },
    };
    let op_alpha = match optional_string_field(v, "op_alpha") {
        Ok(s) => s,
        Err(e) => {
            return Err(e);
        },
    };
    let src_alpha = match optional_string_field(v, "src_alpha") {
        Ok(s) => s,
        Err(e) => {
            return Err(e);
        },
    };
    let dst_alpha = match optional_string_field(v, "dst_alpha") {
        Ok(s) => s,
        Err(e) => {
            return Err(e);
        },
    };
    Ok(BlendDescription { op, src, dst, op_alpha, src_alpha, dst_alpha })
}

/// Read a sub-shader's optional stencil object. The per-face states are
/// recorded only as present: their textual format is not supported and a
/// description naming them is rejected later.
fn extract_stencil(v: &serde_json::Value) -> (r: Result<StencilDescription, ShaderParseError>) {
    let read_mask = match json_get(v, "read_mask") {
        Option::None => None,
        Option::Some(field) => match json_as_u64(field) {
            Option::Some(m) => Some(m),
            Option::None => {
                return Err(parse_error_around("Missing or invalid field '", "read_mask"));
            },
        },
    };
    let write_mask = match json_get(v, "write_mask") {
        Option::None => None,
        Option::Some(field) => match json_as_u64(field) {
            Option::Some(m) => Some(m),
            Option::None => {
                return Err(parse_error_around("Missing or invalid field '", "write_mask"));
            },
        },
    };
    let front_present = json_get(v, "front").is_some();
    let back_present = json_get(v, "back").is_some();
    Ok(StencilDescription { read_mask, write_mask, front_present, back_present })
}

/// Read one sub-shader object: tag and program sources are required, the
/// preprocessor definitions and every raster-state field are optional.
fn extract_sub_shader(v: &serde_json::Value) -> (r: Result<
    SubShaderDescription,
    ShaderParseError,
>) {
    let tag = match required_string_field(v, "tag") {
        Ok(s) => s,
        Err(e) => {
            return Err(e);
        },
    };
    let vs = match required_string_field(v, "vs") {
        Ok(s) => s,
        Err(e) => {
            return Err(e);
        },
    };
    let fs = match required_string_field(v, "fs") {
        Ok(s) => s,
        Err(e) => {
            return Err(e);
        },
    };
    let mut definitions: Vec<(String, Option<String>)> = Vec::new();
    match json_get(v, "definition") {
        Option::None => {},
        Option::Some(def) => {
            let entries = match json_object_entries(def) {
                Option::Some(es) => es,
                Option::None => {
                    return Err(parse_error_around("Missing or invalid field '", "definition"));
                },
            };
            let n = entries.len();
            for i in 0..n
                invariant
                    n == entries@.len(),
            {
                let key = entries[i].0.clone();
                let value = json_as_str(&entries[i].1);
                definitions.push((key, value));
            }
        },
    }
    let cull = match optional_string_field(v, "cull") {
        Ok(s) => s,
        Err(e) => {
            return Err(e);
        },
    };
    let front_face = match optional_string_field(v, "front_face") {
        Ok(s) => s,
        Err(e) => {
            return Err(e);
        },
    };
    let write_mask = match json_get(v, "write_mask") {
        Option::None => None,
        Option::Some(field) => {
            let items = match json_as_array(field) {
                Option::Some(a) => a,
                Option::None => {
                    return Err(parse_error_around("Missing or invalid field '", "write_mask"));
                },
            };
            let mut channels: Vec<String> = Vec::new();
            let n = items.len();
            for i in 0..n
                invariant
                    n == items@.len(),
            {
                match json_as_str(&items[i]) {
                    Option::Some(s) => channels.push(s),
                    Option::None => {
                        return Err(
                            parse_error_around("Missing or invalid field '", "write_mask"),
                        );
                    },
                }
            }
            Some(channels)
        },
    };
    let blend = match json_get(v, "blend") {
        Option::None => None,
        Option::Some(field) => match extract_blend(field) {
            Ok(b) => Some(b),
            Err(e) => {
                return Err(e);
            },
        },
    };
    let depth_write = match json_get(v, "depth_write") {
        Option::None => None,
        Option::Some(field) => match json_as_bool(field) {
            Option::Some(b) => Some(b),
            Option::None => {
                return Err(parse_error_around("Missing or invalid field '", "depth_write"));
            },
        },
    };
    let depth_compare = match optional_string_field(v, "depth_compare") {
        Ok(s) => s,
        Err(e) => {
            return Err(e);
        },
    };
    let stencil = match json_get(v, "stencil") {
        Option::None => None,
        Option::Some(field) => match extract_stencil(field) {
            Ok(sd) => Some(sd),
            Err(e) => {
                return Err(e);
            },
        },
    };
    Ok(
        SubShaderDescription {
            tag,
            vs,
            fs,
            definitions,
            cull,
            front_face,
            write_mask,
            blend,
            depth_write,
            depth_compare,
            stencil,
        },
    )
}

/// Read a whole shader description object: its name, the ordered uniform
/// property list, the texture property list and the sub-shader list. A
/// string in place of the object (the file-indirection convenience) is not
/// resolved here: reading files is the caller's business, so such a value
/// is reported as an error naming the field.
pub fn shader_description_from_json(v: &serde_json::Value) -> (r: Result<
    ShaderDescription,
    ShaderParseError,
>) {
    let name = match required_string_field(v, "name") {
        Ok(s) => s,
        Err(e) => {
            return Err(e);
        },
    };
    let mut uniform_properties: Vec<(String, String)> = Vec::new();
    match json_get(v, "uniform_properties") {
        Option::None => {
            return Err(parse_error_around("Missing or invalid field '", "uniform_properties"));
        },
        Option::Some(field) => {
            let items = match json_as_array(field) {
                Option::Some(a) => a,
                Option::None => {
                    return Err(
                        parse_error_around("Missing or invalid field '", "uniform_properties"),
                    );
                },
            };
            let n = items.len();
            for i in 0..n
                invariant
                    n == items@.len(),
            {
                let entry = match extract_property_entry(&items[i]) {
                    Ok(p) => p,
                    Err(e) => {
                        return Err(e);
                    },
                };
                uniform_properties.push((entry.ty, entry.name));
            }
        },
    }
    let mut texture_properties: Vec<TextureDescription> = Vec::new();
    match json_get(v, "texture_properties") {
        Option::None => {
            return Err(parse_error_around("Missing or invalid field '", "texture_properties"));
        },
        Option::Some(field) => {
            let items = match json_as_array(field) {
                Option::Some(a) => a,
                Option::None => {
                    return Err(
                        parse_error_around("Missing or invalid field '", "texture_properties"),
                    );
                },
            };
            let n = items.len();
            for i in 0..n
                invariant
                    n == items@.len(),
            {
                let entry = match extract_property_entry(&items[i]) {
                    Ok(p) => p,
                    Err(e) => {
                        return Err(e);
                    },
                };
                texture_properties.push(entry);
            }
        },
    }
    let mut sub_shaders: Vec<SubShaderDescription> = Vec::new();
    match json_get(v, "subshaders") {
        Option::None => {
            return Err(parse_error_around("Missing or invalid field '", "subshaders"));
        },
        Option::Some(field) => {
            let items = match json_as_array(field) {
                Option::Some(a) => a,
                Option::None => {
                    return Err(parse_error_around("Missing or invalid field '", "subshaders"));
                },
            };
            let n = items.len();
            for i in 0..n
                invariant
                    n == items@.len(),
            {
                let sub = match extract_sub_shader(&items[i]) {
                    Ok(s) => s,
                    Err(e) => {
                        return Err(e);
                    },
                };
                sub_shaders.push(sub);
            }
        },
    }
    Ok(ShaderDescription { name, uniform_properties, texture_properties, sub_shaders })
}

/// Parse a shader straight out of a JSON object: extract the description,
/// then validate it and build the unbuilt shader.
pub fn shader_from_json(v: &serde_json::Value) -> (r: Result<Shader, ShaderParseError>)
    ensures
        r matches Ok(s) ==> s.wf() && !s.built(),
{
    let desc = match shader_description_from_json(v) {
        Ok(d) => d,
        Err(e) => {
            return Err(e);
        },
    };
    Shader::from_description(&desc)
}

/// Read the top-level document of a shader set: a `shaders` array of shader
/// descriptions and a `materials` array of `{name, shader}` objects.
pub fn shader_set_from_json(v: &serde_json::Value) -> (r: Result<
    (Vec<ShaderDescription>, Vec<MaterialDescription>),
    ShaderParseError,
>) {
    let mut shader_descs: Vec<ShaderDescription> = Vec::new();
    match json_get(v, "shaders") {
        Option::None => {
            return Err(parse_error_around("Missing or invalid field '", "shaders"));
        },
        Option::Some(field) => {
            let items = match json_as_array(field) {
                Option::Some(a) => a,
                Option::None => {
                    return Err(parse_error_around("Missing or invalid field '", "shaders"));
                },
            };
            let n = items.len();
            for i in 0..n
                invariant
                    n == items@.len(),
            {
                let desc = match shader_description_from_json(&items[i]) {
                    Ok(d) => d,
                    Err(e) => {
                        return Err(e);
                    },
                };
                shader_descs.push(desc);
            }
        },
    }
    let mut material_descs: Vec<MaterialDescription> = Vec::new();
    match json_get(v, "materials") {
        Option::None => {
            return Err(parse_error_around("Missing or invalid field '", "materials"));
        },
        Option::Some(field) => {
            let items = match json_as_array(field) {
                Option::Some(a) => a,
                Option::None => {
                    return Err(parse_error_around("Missing or invalid field '", "materials"));
                },
            };
            let n = items.len();
            for i in 0..n
                invariant
                    n == items@.len(),
            {
                let name = match required_string_field(&items[i], "name") {
                    Ok(s) => s,
                    Err(e) => {
                        return Err(e);
                    },
                };
                let shader = match required_string_field(&items[i], "shader") {
                    Ok(s) => s,
                    Err(e) => {
                        return Err(e);
                    },
                };
                material_descs.push(MaterialDescription { name, shader });
            }
        },
    }
    Ok((shader_descs, material_descs))
}

/// Load a whole shader set out of a JSON document: extract and validate
/// every shader, build it and its pipelines for the given target formats,
/// and instantiate every material. What succeeds depends on the opaque
/// document, but every successful load hands back built shaders, one
/// registered pipeline per pass of each, and materials whose shaders are
/// all registered.
pub fn load_shaders_from_json(
    v: &serde_json::Value,
    color_format: TextureFormat,
    depth_stencil_format: TextureFormat,
) -> (r: Result<(Registry, Vec<Material>), ShaderParseError>)
    ensures
        r matches Ok((reg, mats)) ==> {
            &&& reg.wf()
            &&& forall|i: int| 0 <= i < reg.shaders@.len() ==> (#[trigger] reg.shaders@[i]).built()
            &&& reg.spec_all_passes_registered(color_format, depth_stencil_format)
            &&& forall|j: int|
                0 <= j < mats@.len() ==> crate::registry::spec_material_resolves(
                    #[trigger] mats@[j],
                    reg.shaders@,
                )
        },
{
    let (shader_descs, material_descs) = match shader_set_from_json(v) {
        Ok(p) => p,
        Err(e) => {
            return Err(e);
        },
    };
    load_shader_set(&shader_descs, &material_descs, color_format, depth_stencil_format)
}

} // verus!
