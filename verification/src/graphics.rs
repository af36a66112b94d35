//! Bind-group layout entries as plain data, and the fixed layouts the
//! renderer publishes for object transforms, cameras, lights and the scene
//! environment. Every entry is visible to both the vertex and the fragment
//! stage.

use vstd::prelude::*;

use crate::texture::TextureKind;

verus! {

/// What kind of resource a bind-group slot holds.
#[derive(Clone, Copy, Debug, PartialEq, Eq, Structural)]
pub enum BindingType {
    UniformBuffer,
    Texture { view_dimension: TextureKind },
    Sampler,
}

/// One slot of a bind-group layout.
#[derive(Clone, Copy, Debug, PartialEq, Eq, Structural)]
pub struct BindGroupLayoutEntry {
    pub binding: u32,
    pub ty: BindingType,
}

/// A uniform-buffer slot at the given binding.
pub fn uniform_bind_group_entry(binding: u32) -> (r: BindGroupLayoutEntry)
    ensures
        r == (BindGroupLayoutEntry { binding, ty: BindingType::UniformBuffer }),
{
    BindGroupLayoutEntry { binding, ty: BindingType::UniformBuffer }
}

/// A sampled-texture slot at the given binding with the given view
/// dimensionality.
pub fn texture_bind_group_entry(binding: u32, view_dimension: TextureKind) -> (r:
    BindGroupLayoutEntry)
    ensures
        r == (BindGroupLayoutEntry { binding, ty: BindingType::Texture { view_dimension } }),
{
    BindGroupLayoutEntry { binding, ty: BindingType::Texture { view_dimension } }
}

/// A sampler slot at the given binding.
pub fn sampler_bind_group_entry(binding: u32) -> (r: BindGroupLayoutEntry)
    ensures
        r == (BindGroupLayoutEntry { binding, ty: BindingType::Sampler }),
{
    BindGroupLayoutEntry { binding, ty: BindingType::Sampler }
}

/// The per-object layout: one uniform buffer (the object transform).
pub fn object_bind_group_layout_entries() -> (r: Vec<BindGroupLayoutEntry>)
    ensures
        r@ =~= seq![BindGroupLayoutEntry { binding: 0, ty: BindingType::UniformBuffer }],
{
    let mut v: Vec<BindGroupLayoutEntry> = Vec::new();
    v.push(uniform_bind_group_entry(0));
    v
}

/// The per-camera layout: one uniform buffer (view/projection state).
pub fn camera_bind_group_layout_entries() -> (r: Vec<BindGroupLayoutEntry>)
    ensures
        r@ =~= seq![BindGroupLayoutEntry { binding: 0, ty: BindingType::UniformBuffer }],
{
    let mut v: Vec<BindGroupLayoutEntry> = Vec::new();
    v.push(uniform_bind_group_entry(0));
    v
}

/// The per-light layout: one uniform buffer (position/color).
pub fn light_bind_group_layout_entries() -> (r: Vec<BindGroupLayoutEntry>)
    ensures
        r@ =~= seq![BindGroupLayoutEntry { binding: 0, ty: BindingType::UniformBuffer }],
{
    let mut v: Vec<BindGroupLayoutEntry> = Vec::new();
    v.push(uniform_bind_group_entry(0));
    v
}

} // verus!
