//! Fixed-function render state carried by a sub-shader pass, and the
//! keyword parsers that build it from a textual description.
//!
//! Every parser accepts exactly the recognized keyword set and reports any
//! other string in a descriptive error naming the offending value.

use vstd::prelude::*;

use crate::description::BlendDescription;
use crate::description::StencilDescription;
use crate::description::SubShaderDescription;
use crate::keyed::str_eq;

verus! {

/// Error for operations that need a `build` call to have run first: the
/// design assumes build-before-use and fails loudly otherwise.
#[derive(Clone, Copy, Debug, PartialEq, Eq, Structural)]
pub struct ResourceStateError;

/// Error produced when a shader description is malformed: an unknown enum
/// keyword or a missing required field, named in the message.
#[derive(Debug)]
pub struct ShaderParseError {
    pub parse_error: String,
}

impl ShaderParseError {
    /// The human-readable description of what failed to parse.
    pub fn message(&self) -> (r: &str)
        ensures
            r@ == self.parse_error@,
    {
        self.parse_error.as_str()
    }
}

/// Build a parse error of the shape `{prefix}{value}'` (the prefix carries
/// the opening quote).
pub fn parse_error_around(prefix: &str, value: &str) -> (e: ShaderParseError)
    ensures
        e.parse_error@ == prefix@ + value@ + "'"@,
{
    ShaderParseError { parse_error: prefix.to_owned().concat(value).concat("'") }
}

/// Which triangle faces are culled before rasterization.
#[derive(Clone, Copy, Debug, PartialEq, Eq, Structural)]
pub enum CullMode {
    Front,
    Back,
    Disabled,
}

/// Which winding order counts as the front of a triangle.
#[derive(Clone, Copy, Debug, PartialEq, Eq, Structural)]
pub enum FrontFace {
    Ccw,
    Cw,
}

/// A factor in the standard GPU blend equation.
#[derive(Clone, Copy, Debug, PartialEq, Eq, Structural)]
pub enum BlendFactor {
    One,
    Zero,
    SrcAlpha,
    SrcColor,
    OneMinusSrcAlpha,
    OneMinusSrcColor,
    DstAlpha,
    DstColor,
    OneMinusDstAlpha,
    OneMinusDstColor,
}

/// The operation combining source and destination in the blend equation.
#[derive(Clone, Copy, Debug, PartialEq, Eq, Structural)]
pub enum BlendOperation {
    Add,
    Subtract,
    ReverseSubtract,
    Min,
    Max,
}

/// One blend equation: `operation(src * src_factor, dst * dst_factor)`.
#[derive(Clone, Copy, Debug, PartialEq, Eq, Structural)]
pub struct BlendState {
    pub src_factor: BlendFactor,
    pub dst_factor: BlendFactor,
    pub operation: BlendOperation,
}

impl BlendState {
    /// The replace equation: the source overwrites the destination.
    pub open spec fn spec_replace() -> BlendState {
        BlendState {
            src_factor: BlendFactor::One,
            dst_factor: BlendFactor::Zero,
            operation: BlendOperation::Add,
        }
    }

    /// The replace equation: the source overwrites the destination.
    pub fn replace() -> (r: BlendState)
        ensures
            r == BlendState::spec_replace(),
    {
        BlendState {
            src_factor: BlendFactor::One,
            dst_factor: BlendFactor::Zero,
            operation: BlendOperation::Add,
        }
    }
}

/// A comparison used for depth and stencil tests.
#[derive(Clone, Copy, Debug, PartialEq, Eq, Structural)]
pub enum CompareFunction {
    Always,
    Never,
    Equal,
    NotEqual,
    Less,
    LessEqual,
    Greater,
    GreaterEqual,
}

/// What happens to a stencil value on a test outcome.
#[derive(Clone, Copy, Debug, PartialEq, Eq, Structural)]
pub enum StencilOperation {
    Keep,
    Zero,
    Replace,
    Invert,
    IncrementClamp,
    DecrementClamp,
    IncrementWrap,
    DecrementWrap,
}

/// Stencil behaviour for one triangle face orientation.
#[derive(Clone, Copy, Debug, PartialEq, Eq, Structural)]
pub struct StencilFaceState {
    pub compare: CompareFunction,
    pub fail_op: StencilOperation,
    pub depth_fail_op: StencilOperation,
    pub pass_op: StencilOperation,
}

impl StencilFaceState {
    /// The inert face state: compare always, keep on every outcome.
    pub open spec fn spec_ignore() -> StencilFaceState {
        StencilFaceState {
            compare: CompareFunction::Always,
            fail_op: StencilOperation::Keep,
            depth_fail_op: StencilOperation::Keep,
            pass_op: StencilOperation::Keep,
        }
    }

    /// The inert face state: compare always, keep on every outcome.
    pub fn ignore() -> (r: StencilFaceState)
        ensures
            r == StencilFaceState::spec_ignore(),
    {
        StencilFaceState {
            compare: CompareFunction::Always,
            fail_op: StencilOperation::Keep,
            depth_fail_op: StencilOperation::Keep,
            pass_op: StencilOperation::Keep,
        }
    }
}

/// Full stencil state: per-face behaviour plus read/write masks.
#[derive(Clone, Copy, Debug, PartialEq, Eq, Structural)]
pub struct StencilState {
    pub front: StencilFaceState,
    pub back: StencilFaceState,
    pub read_mask: u32,
    pub write_mask: u32,
}

impl StencilState {
    /// The inert stencil state: both faces ignored, zero masks.
    pub open spec fn spec_disabled() -> StencilState {
        StencilState {
            front: StencilFaceState::spec_ignore(),
            back: StencilFaceState::spec_ignore(),
            read_mask: 0,
            write_mask: 0,
        }
    }

    /// The inert stencil state: both faces ignored, zero masks.
    pub fn disabled() -> (r: StencilState)
        ensures
            r == StencilState::spec_disabled(),
    {
        StencilState { front: StencilFaceState::ignore(), back: StencilFaceState::ignore(), read_mask: 0, write_mask: 0 }
    }
}

/// Which color channels a pass may write.
#[derive(Clone, Copy, Debug, PartialEq, Eq, Structural)]
pub struct ColorWriteMask {
    pub red: bool,
    pub green: bool,
    pub blue: bool,
    pub alpha: bool,
}

impl ColorWriteMask {
    /// All four channels writable.
    pub open spec fn spec_all() -> ColorWriteMask {
        ColorWriteMask { red: true, green: true, blue: true, alpha: true }
    }

    /// All four channels writable.
    pub fn all_channels() -> (r: ColorWriteMask)
        ensures
            r == ColorWriteMask::spec_all(),
    {
        ColorWriteMask { red: true, green: true, blue: true, alpha: true }
    }

    /// No channel writable.
    pub fn no_channels() -> (r: ColorWriteMask)
        ensures
            r == (ColorWriteMask { red: false, green: false, blue: false, alpha: false }),
    {
        ColorWriteMask { red: false, green: false, blue: false, alpha: false }
    }
}

/// The cull mode a keyword denotes, if recognized.
pub open spec fn spec_cull_mode_from(s: Seq<char>) -> Option<CullMode> {
    if s == "front"@ {
        Some(CullMode::Front)
    } else if s == "back"@ {
        Some(CullMode::Back)
    } else if s == "none"@ {
        Some(CullMode::Disabled)
    } else {
        None
    }
}

/// Parse a cull-mode keyword: `front`, `back` or `none`.
pub fn cull_mode_from_str(s: &str) -> (r: Result<CullMode, ShaderParseError>)
    ensures
        r matches Ok(c) ==> spec_cull_mode_from(s@) == Some(c),
        r matches Err(e) ==> spec_cull_mode_from(s@) is None && e.parse_error@
            == "Unknown cull value: '"@ + s@ + "'"@,
{
    if str_eq(s, "front") {
        Ok(CullMode::Front)
    } else if str_eq(s, "back") {
        Ok(CullMode::Back)
    } else if str_eq(s, "none") {
        Ok(CullMode::Disabled)
    } else {
        Err(parse_error_around("Unknown cull value: '", s))
    }
}

/// The front-face winding a keyword denotes, if recognized.
pub open spec fn spec_front_face_from(s: Seq<char>) -> Option<FrontFace> {
    if s == "ccw"@ {
        Some(FrontFace::Ccw)
    } else if s == "cw"@ {
        Some(FrontFace::Cw)
    } else {
        None
    }
}

/// Parse a front-face keyword: `ccw` or `cw`.
pub fn front_face_from_str(s: &str) -> (r: Result<FrontFace, ShaderParseError>)
    ensures
        r matches Ok(f) ==> spec_front_face_from(s@) == Some(f),
        r matches Err(e) ==> spec_front_face_from(s@) is None && e.parse_error@
            == "Unknown front face value: '"@ + s@ + "'"@,
{
    if str_eq(s, "ccw") {
        Ok(FrontFace::Ccw)
    } else if str_eq(s, "cw") {
        Ok(FrontFace::Cw)
    } else {
        Err(parse_error_around("Unknown front face value: '", s))
    }
}

/// The blend factor a keyword denotes, if recognized.
pub open spec fn spec_blend_factor_from(s: Seq<char>) -> Option<BlendFactor> {
    if s == "one"@ {
        Some(BlendFactor::One)
    } else if s == "zero"@ {
        Some(BlendFactor::Zero)
    } else if s == "src_alpha"@ {
        Some(BlendFactor::SrcAlpha)
    } else if s == "src_color"@ {
        Some(BlendFactor::SrcColor)
    } else if s == "one_minus_src_alpha"@ {
        Some(BlendFactor::OneMinusSrcAlpha)
    } else if s == "one_minus_src_color"@ {
        Some(BlendFactor::OneMinusSrcColor)
    } else if s == "dst_alpha"@ {
        Some(BlendFactor::DstAlpha)
    } else if s == "dst_color"@ {
        Some(BlendFactor::DstColor)
    } else if s == "one_minus_dst_alpha"@ {
        Some(BlendFactor::OneMinusDstAlpha)
    } else if s == "one_minus_dst_color"@ {
        Some(BlendFactor::OneMinusDstColor)
    } else {
        None
    }
}

/// Parse a blend-factor keyword from the standard GPU blend-factor set.
pub fn blend_factor_from_str(s: &str) -> (r: Result<BlendFactor, ShaderParseError>)
    ensures
        r matches Ok(f) ==> spec_blend_factor_from(s@) == Some(f),
        r matches Err(e) ==> spec_blend_factor_from(s@) is None && e.parse_error@
            == "Unknown blend factor '"@ + s@ + "'"@,
{
    if str_eq(s, "one") {
        Ok(BlendFactor::One)
    } else if str_eq(s, "zero") {
        Ok(BlendFactor::Zero)
    } else if str_eq(s, "src_alpha") {
        Ok(BlendFactor::SrcAlpha)
    } else if str_eq(s, "src_color") {
        Ok(BlendFactor::SrcColor)
    } else if str_eq(s, "one_minus_src_alpha") {
        Ok(BlendFactor::OneMinusSrcAlpha)
    } else if str_eq(s, "one_minus_src_color") {
        Ok(BlendFactor::OneMinusSrcColor)
    } else if str_eq(s, "dst_alpha") {
        Ok(BlendFactor::DstAlpha)
    } else if str_eq(s, "dst_color") {
        Ok(BlendFactor::DstColor)
    } else if str_eq(s, "one_minus_dst_alpha") {
        Ok(BlendFactor::OneMinusDstAlpha)
    } else if str_eq(s, "one_minus_dst_color") {
        Ok(BlendFactor::OneMinusDstColor)
    } else {
        Err(parse_error_around("Unknown blend factor '", s))
    }
}

/// The blend operation a keyword denotes, if recognized.
pub open spec fn spec_blend_op_from(s: Seq<char>) -> Option<BlendOperation> {
    if s == "add"@ {
        Some(BlendOperation::Add)
    } else if s == "max"@ {
        Some(BlendOperation::Max)
    } else if s == "min"@ {
        Some(BlendOperation::Min)
    } else if s == "sub"@ {
        Some(BlendOperation::Subtract)
    } else if s == "rsub"@ {
        Some(BlendOperation::ReverseSubtract)
    } else {
        None
    }
}

/// Parse a blend-operation keyword: `add`, `max`, `min`, `sub` or `rsub`.
pub fn blend_op_from_str(s: &str) -> (r: Result<BlendOperation, ShaderParseError>)
    ensures
        r matches Ok(o) ==> spec_blend_op_from(s@) == Some(o),
        r matches Err(e) ==> spec_blend_op_from(s@) is None && e.parse_error@
            == "Unknown blend operation '"@ + s@ + "'"@,
{
    if str_eq(s, "add") {
        Ok(BlendOperation::Add)
    } else if str_eq(s, "max") {
        Ok(BlendOperation::Max)
    } else if str_eq(s, "min") {
        Ok(BlendOperation::Min)
    } else if str_eq(s, "sub") {
        Ok(BlendOperation::Subtract)
    } else if str_eq(s, "rsub") {
        Ok(BlendOperation::ReverseSubtract)
    } else {
        Err(parse_error_around("Unknown blend operation '", s))
    }
}

/// The comparison function a keyword denotes, if recognized.
pub open spec fn spec_compare_func_from(s: Seq<char>) -> Option<CompareFunction> {
    if s == "always"@ {
        Some(CompareFunction::Always)
    } else if s == "never"@ {
        Some(CompareFunction::Never)
    } else if s == "equal"@ {
        Some(CompareFunction::Equal)
    } else if s == "nequal"@ {
        Some(CompareFunction::NotEqual)
    } else if s == "less"@ {
        Some(CompareFunction::Less)
    } else if s == "lequal"@ {
        Some(CompareFunction::LessEqual)
    } else if s == "greater"@ {
        Some(CompareFunction::Greater)
    } else if s == "gequal"@ {
        Some(CompareFunction::GreaterEqual)
    } else {
        None
    }
}

/// Parse a comparison-function keyword.
pub fn compare_func_from_str(s: &str) -> (r: Result<CompareFunction, ShaderParseError>)
    ensures
        r matches Ok(c) ==> spec_compare_func_from(s@) == Some(c),
        r matches Err(e) ==> spec_compare_func_from(s@) is None && e.parse_error@
            == "Unknown compare function '"@ + s@ + "'"@,
{
    if str_eq(s, "always") {
        Ok(CompareFunction::Always)
    } else if str_eq(s, "never") {
        Ok(CompareFunction::Never)
    } else if str_eq(s, "equal") {
        Ok(CompareFunction::Equal)
    } else if str_eq(s, "nequal") {
        Ok(CompareFunction::NotEqual)
    } else if str_eq(s, "less") {
        Ok(CompareFunction::Less)
    } else if str_eq(s, "lequal") {
        Ok(CompareFunction::LessEqual)
    } else if str_eq(s, "greater") {
        Ok(CompareFunction::Greater)
    } else if str_eq(s, "gequal") {
        Ok(CompareFunction::GreaterEqual)
    } else {
        Err(parse_error_around("Unknown compare function '", s))
    }
}

/// Whether a color-write-mask item is one of the recognized channel names.
pub open spec fn spec_mask_item_recognized(s: Seq<char>) -> bool {
    s == "R"@ || s == "G"@ || s == "B"@ || s == "A"@
}

/// The mask a list of channel names denotes: each named channel is writable.
/// Unrecognized names make the whole list unrecognized.
pub open spec fn spec_write_mask_from(items: Seq<Seq<char>>) -> Option<ColorWriteMask> {
    if forall|i: int| 0 <= i < items.len() ==> spec_mask_item_recognized(#[trigger] items[i]) {
        Some(
            ColorWriteMask {
                red: exists|i: int| 0 <= i < items.len() && items[i] == "R"@,
                green: exists|i: int| 0 <= i < items.len() && items[i] == "G"@,
                blue: exists|i: int| 0 <= i < items.len() && items[i] == "B"@,
                alpha: exists|i: int| 0 <= i < items.len() && items[i] == "A"@,
            },
        )
    } else {
        None
    }
}

/// The views of a list of strings.
pub open spec fn spec_str_views(items: Seq<String>) -> Seq<Seq<char>> {
    items.map_values(|s: String| s@)
}

/// Parse a color write mask given as a list of channel names out of
/// `R`, `G`, `B`, `A`; starts from the empty mask.
pub fn color_write_mask_from_strs(items: &Vec<String>) -> (r: Result<
    ColorWriteMask,
    ShaderParseError,
>)
    ensures
        r matches Ok(m) ==> spec_write_mask_from(spec_str_views(items@)) == Some(m),
        r matches Err(e) ==> spec_write_mask_from(spec_str_views(items@)) is None && exists|i: int|
            0 <= i < items@.len() && !spec_mask_item_recognized(#[trigger] items@[i]@)
                && e.parse_error@ == "Unknown color write mask value: '"@ + items@[i]@ + "'"@,
{
    let ghost views = spec_str_views(items@);
    let mut mask = ColorWriteMask::no_channels();
    let n = items.len();
    for i in 0..n
        invariant
            n == items@.len(),
            views == spec_str_views(items@),
            views.len() == n,
            forall|j: int| 0 <= j < i ==> spec_mask_item_recognized(#[trigger] views[j]),
            mask.red == exists|j: int| 0 <= j < i && views[j] == "R"@,
            mask.green == exists|j: int| 0 <= j < i && views[j] == "G"@,
            mask.blue == exists|j: int| 0 <= j < i && views[j] == "B"@,
            mask.alpha == exists|j: int| 0 <= j < i && views[j] == "A"@,
    {
        let item = &items[i];
        assert(views[i as int] == item@);
        let is_r = str_eq(item.as_str(), "R");
        let is_g = str_eq(item.as_str(), "G");
        let is_b = str_eq(item.as_str(), "B");
        let is_a = str_eq(item.as_str(), "A");
        if !(is_r || is_g || is_b || is_a) {
            return Err(parse_error_around("Unknown color write mask value: '", item.as_str()));
        }
        mask = ColorWriteMask {
            red: mask.red || is_r,
            green: mask.green || is_g,
            blue: mask.blue || is_b,
            alpha: mask.alpha || is_a,
        };
    }
    Ok(mask)
}

/// The full fixed-function state of one sub-shader pass.
#[derive(Clone, Copy, Debug, PartialEq, Eq, Structural)]
pub struct SubShaderOption {
    pub cull_mode: CullMode,
    pub front_face: FrontFace,
    pub write_mask: ColorWriteMask,
    pub color_blend: BlendState,
    pub alpha_blend: BlendState,
    pub depth_write: bool,
    pub depth_compare: CompareFunction,
    pub stencil: StencilState,
}

impl SubShaderOption {
    /// The state used when a description overrides nothing: cull back faces,
    /// counter-clockwise front, write all channels, replace blending, write
    /// depth with a less-than test, stencil inert.
    pub open spec fn spec_default() -> SubShaderOption {
        SubShaderOption {
            cull_mode: CullMode::Back,
            front_face: FrontFace::Ccw,
            write_mask: ColorWriteMask::spec_all(),
            color_blend: BlendState::spec_replace(),
            alpha_blend: BlendState::spec_replace(),
            depth_write: true,
            depth_compare: CompareFunction::Less,
            stencil: StencilState::spec_disabled(),
        }
    }
}

impl Default for SubShaderOption {
    fn default() -> (r: SubShaderOption)
        ensures
            r == SubShaderOption::spec_default(),
    {
        SubShaderOption {
            cull_mode: CullMode::Back,
            front_face: FrontFace::Ccw,
            write_mask: ColorWriteMask::all_channels(),
            color_blend: BlendState::replace(),
            alpha_blend: BlendState::replace(),
            depth_write: true,
            depth_compare: CompareFunction::Less,
            stencil: StencilState::disabled(),
        }
    }
}

/// The blend operation an optional keyword denotes, with a default when the
/// keyword is absent.
pub open spec fn spec_opt_blend_op(o: Option<String>, dflt: BlendOperation) -> Option<
    BlendOperation,
> {
    match o {
        Option::None => Some(dflt),
        Option::Some(s) => spec_blend_op_from(s@),
    }
}

/// The blend factor an optional keyword denotes, with a default when the
/// keyword is absent.
pub open spec fn spec_opt_blend_factor(o: Option<String>, dflt: BlendFactor) -> Option<
    BlendFactor,
> {
    match o {
        Option::None => Some(dflt),
        Option::Some(s) => spec_blend_factor_from(s@),
    }
}

/// The blend state a `(op, src, dst)` keyword triple denotes, starting from
/// the replace equation for absent fields.
pub open spec fn spec_blend_state_of(
    op: Option<String>,
    src: Option<String>,
    dst: Option<String>,
) -> Option<BlendState> {
    let o = spec_opt_blend_op(op, BlendOperation::Add);
    let s = spec_opt_blend_factor(src, BlendFactor::One);
    let d = spec_opt_blend_factor(dst, BlendFactor::Zero);
    if o is Some && s is Some && d is Some {
        Some(
            BlendState {
                src_factor: s->Some_0,
                dst_factor: d->Some_0,
                operation: o->Some_0,
            },
        )
    } else {
        None
    }
}

/// The color blend state a sub-shader description denotes.
pub open spec fn spec_color_blend_of(d: SubShaderDescription) -> Option<BlendState> {
    match d.blend {
        Option::None => Some(BlendState::spec_replace()),
        Option::Some(b) => spec_blend_state_of(b.op, b.src, b.dst),
    }
}

/// The alpha blend state a sub-shader description denotes.
pub open spec fn spec_alpha_blend_of(d: SubShaderDescription) -> Option<BlendState> {
    match d.blend {
        Option::None => Some(BlendState::spec_replace()),
        Option::Some(b) => spec_blend_state_of(b.op_alpha, b.src_alpha, b.dst_alpha),
    }
}

/// The cull mode a sub-shader description denotes (default: back faces).
pub open spec fn spec_cull_of(d: SubShaderDescription) -> Option<CullMode> {
    match d.cull {
        Option::None => Some(CullMode::Back),
        Option::Some(s) => spec_cull_mode_from(s@),
    }
}

/// The front face a sub-shader description denotes (default: ccw).
pub open spec fn spec_front_face_of(d: SubShaderDescription) -> Option<FrontFace> {
    match d.front_face {
        Option::None => Some(FrontFace::Ccw),
        Option::Some(s) => spec_front_face_from(s@),
    }
}

/// The color write mask a sub-shader description denotes (default: all).
pub open spec fn spec_write_mask_of(d: SubShaderDescription) -> Option<ColorWriteMask> {
    match d.write_mask {
        Option::None => Some(ColorWriteMask::spec_all()),
        Option::Some(items) => spec_write_mask_from(spec_str_views(items@)),
    }
}

/// The depth comparison a sub-shader description denotes (default: less).
pub open spec fn spec_depth_compare_of(d: SubShaderDescription) -> Option<CompareFunction> {
    match d.depth_compare {
        Option::None => Some(CompareFunction::Less),
        Option::Some(s) => spec_compare_func_from(s@),
    }
}

/// Whether depth writing is enabled by a description (default: enabled).
pub open spec fn spec_depth_write_of(d: SubShaderDescription) -> bool {
    match d.depth_write {
        Option::None => true,
        Option::Some(b) => b,
    }
}

/// The low 32 bits of an optional stencil mask (default: 0).
pub open spec fn spec_stencil_mask_of(o: Option<u64>) -> u32 {
    match o {
        Option::None => 0u32,
        Option::Some(v) => (v & 0xffff_ffff) as u32,
    }
}

/// The stencil state a sub-shader description denotes. Per-face stencil
/// descriptions are not supported and make the whole description invalid.
pub open spec fn spec_stencil_of(d: SubShaderDescription) -> Option<StencilState> {
    match d.stencil {
        Option::None => Some(StencilState::spec_disabled()),
        Option::Some(sd) => if sd.front_present || sd.back_present {
            None
        } else {
            Some(
                StencilState {
                    front: StencilFaceState::spec_ignore(),
                    back: StencilFaceState::spec_ignore(),
                    read_mask: spec_stencil_mask_of(sd.read_mask),
                    write_mask: spec_stencil_mask_of(sd.write_mask),
                },
            )
        },
    }
}

/// The full fixed-function state a sub-shader description denotes, or
/// nothing when any of its keywords is unrecognized.
pub open spec fn spec_sub_shader_option_of(d: SubShaderDescription) -> Option<SubShaderOption> {
    if spec_cull_of(d) is Some && spec_front_face_of(d) is Some && spec_write_mask_of(d) is Some
        && spec_color_blend_of(d) is Some && spec_alpha_blend_of(d) is Some
        && spec_depth_compare_of(d) is Some && spec_stencil_of(d) is Some {
        Some(
            SubShaderOption {
                cull_mode: spec_cull_of(d)->Some_0,
                front_face: spec_front_face_of(d)->Some_0,
                write_mask: spec_write_mask_of(d)->Some_0,
                color_blend: spec_color_blend_of(d)->Some_0,
                alpha_blend: spec_alpha_blend_of(d)->Some_0,
                depth_write: spec_depth_write_of(d),
                depth_compare: spec_depth_compare_of(d)->Some_0,
                stencil: spec_stencil_of(d)->Some_0,
            },
        )
    } else {
        None
    }
}

/// Whether `msg` names an unrecognized keyword of a blend `(op, src, dst)`
/// keyword triple, in the exact wording the parsers use.
pub open spec fn spec_blend_triple_error_named(
    op: Option<String>,
    src: Option<String>,
    dst: Option<String>,
    msg: Seq<char>,
) -> bool {
    ||| (op matches Some(s) && spec_blend_op_from(s@) is None && msg
        == "Unknown blend operation '"@ + s@ + "'"@)
    ||| (src matches Some(s) && spec_blend_factor_from(s@) is None && msg
        == "Unknown blend factor '"@ + s@ + "'"@)
    ||| (dst matches Some(s) && spec_blend_factor_from(s@) is None && msg
        == "Unknown blend factor '"@ + s@ + "'"@)
}

/// Whether `msg` names what makes a sub-shader description invalid: an
/// unrecognized raster keyword quoted in the parser's exact wording, or the
/// presence of per-face stencil states, which this format does not define.
pub open spec fn spec_sub_shader_error_named(d: SubShaderDescription, msg: Seq<char>) -> bool {
    ||| (d.cull matches Some(s) && spec_cull_mode_from(s@) is None && msg
        == "Unknown cull value: '"@ + s@ + "'"@)
    ||| (d.front_face matches Some(s) && spec_front_face_from(s@) is None && msg
        == "Unknown front face value: '"@ + s@ + "'"@)
    ||| (d.write_mask matches Some(items) && exists|i: int|
        0 <= i < items@.len() && !spec_mask_item_recognized((#[trigger] items@[i])@) && msg
            == "Unknown color write mask value: '"@ + items@[i]@ + "'"@)
    ||| (d.blend matches Some(b) && (spec_blend_triple_error_named(b.op, b.src, b.dst, msg)
        || spec_blend_triple_error_named(b.op_alpha, b.src_alpha, b.dst_alpha, msg)))
    ||| (d.depth_compare matches Some(s) && spec_compare_func_from(s@) is None && msg
        == "Unknown compare function '"@ + s@ + "'"@)
    ||| (d.stencil matches Some(sd) && (sd.front_present || sd.back_present) && msg
        == "Stencil face states are not supported"@)
}

/// Build a blend state from optional keyword overrides, starting from the
/// replace equation.
fn blend_state_from_parts(
    op: &Option<String>,
    src: &Option<String>,
    dst: &Option<String>,
) -> (r: Result<BlendState, ShaderParseError>)
    ensures
        r matches Ok(b) ==> spec_blend_state_of(*op, *src, *dst) == Some(b),
        r matches Err(e) ==> spec_blend_state_of(*op, *src, *dst) is None
            && spec_blend_triple_error_named(*op, *src, *dst, e.parse_error@),
{
    let mut blend = BlendState::replace();
    match op {
        Option::None => {},
        Option::Some(s) => {
            match blend_op_from_str(s.as_str()) {
                Ok(o) => {
                    blend.operation = o;
                },
                Err(e) => {
                    return Err(e);
                },
            }
        },
    }
    match src {
        Option::None => {},
        Option::Some(s) => {
            match blend_factor_from_str(s.as_str()) {
                Ok(f) => {
                    blend.src_factor = f;
                },
                Err(e) => {
                    return Err(e);
                },
            }
        },
    }
    match dst {
        Option::None => {},
        Option::Some(s) => {
            match blend_factor_from_str(s.as_str()) {
                Ok(f) => {
                    blend.dst_factor = f;
                },
                Err(e) => {
                    return Err(e);
                },
            }
        },
    }
    Ok(blend)
}

/// Build the fixed-function state of one sub-shader pass from its
/// description, applying the documented defaults for absent fields and
/// rejecting any unrecognized keyword with an error naming it.
#[verifier::rlimit(50)]
pub fn sub_shader_option_from_description(d: &SubShaderDescription) -> (r: Result<
    SubShaderOption,
    ShaderParseError,
>)
    ensures
        r matches Ok(o) ==> spec_sub_shader_option_of(*d) == Some(o),
        r is Err <==> spec_sub_shader_option_of(*d) is None,
        r matches Err(e) ==> spec_sub_shader_error_named(*d, e.parse_error@),
{
    let mut option = SubShaderOption::default();
    match &d.cull {
        Option::None => {},
        Option::Some(s) => {
            match cull_mode_from_str(s.as_str()) {
                Ok(c) => {
                    option.cull_mode = c;
                },
                Err(e) => {
                    return Err(e);
                },
            }
        },
    }
    match &d.front_face {
        Option::None => {},
        Option::Some(s) => {
            match front_face_from_str(s.as_str()) {
                Ok(f) => {
                    option.front_face = f;
                },
                Err(e) => {
                    return Err(e);
                },
            }
        },
    }
    match &d.write_mask {
        Option::None => {},
        Option::Some(items) => {
            match color_write_mask_from_strs(items) {
                Ok(m) => {
                    option.write_mask = m;
                },
                Err(e) => {
                    return Err(e);
                },
            }
        },
    }
    match &d.blend {
        Option::None => {},
        Option::Some(b) => {
            match blend_state_from_parts(&b.op, &b.src, &b.dst) {
                Ok(c) => {
                    option.color_blend = c;
                },
                Err(e) => {
                    return Err(e);
                },
            }
            match blend_state_from_parts(&b.op_alpha, &b.src_alpha, &b.dst_alpha) {
                Ok(a) => {
                    option.alpha_blend = a;
                },
                Err(e) => {
                    return Err(e);
                },
            }
        },
    }
    match &d.depth_write {
        Option::None => {},
        Option::Some(b) => {
            option.depth_write = *b;
        },
    }
    match &d.depth_compare {
        Option::None => {},
        Option::Some(s) => {
            match compare_func_from_str(s.as_str()) {
                Ok(c) => {
                    option.depth_compare = c;
                },
                Err(e) => {
                    return Err(e);
                },
            }
        },
    }
    match &d.stencil {
        Option::None => {},
        Option::Some(sd) => {
            if sd.front_present || sd.back_present {
                return Err(
                    ShaderParseError {
                        parse_error: "Stencil face states are not supported".to_owned(),
                    },
                );
            }
            let mut stencil = StencilState::disabled();
            match &sd.read_mask {
                Option::None => {},
                Option::Some(v) => {
                    stencil.read_mask = (*v & 0xffff_ffff) as u32;
                },
            }
            match &sd.write_mask {
                Option::None => {},
                Option::Some(v) => {
                    stencil.write_mask = (*v & 0xffff_ffff) as u32;
                },
            }
            option.stencil = stencil;
        },
    }
    Ok(option)
}

} // verus!
