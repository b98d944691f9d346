//! What the root signature, the shaders and the pipeline state are built from.

use vstd::prelude::*;
use crate::targets::PixelFormat;
use crate::vertex::VERTEX_STRIDE;

verus! {

/// Vertex attributes the shaders read.
#[derive(Clone, Copy, Debug, PartialEq, Eq, Structural)]
pub enum Semantic {
    /// `POSITION`
    Position,
    /// `COLOR`
    Color,
}

/// One element of the input-assembler layout.
#[derive(Clone, Copy, Debug, PartialEq, Eq, Structural)]
pub struct InputElement {
    pub semantic: Semantic,
    pub semantic_index: u32,
    pub format: PixelFormat,
    pub input_slot: u32,
    pub aligned_byte_offset: u32,
    /// Per-vertex data, as opposed to per-instance.
    pub per_vertex: bool,
    pub instance_step_rate: u32,
}

/// Bytes one value of a vertex-attribute format takes.
pub open spec fn format_size(f: PixelFormat) -> nat {
    match f {
        PixelFormat::R8G8B8A8Unorm => 4,
        PixelFormat::R32G32B32Float => 12,
        PixelFormat::R32G32B32A32Float => 16,
    }
}

/// The per-vertex element of slot 0 for `semantic` at `offset`.
pub open spec fn vertex_element(semantic: Semantic, format: PixelFormat, offset: u32) -> InputElement {
    InputElement {
        semantic,
        semantic_index: 0,
        format,
        input_slot: 0,
        aligned_byte_offset: offset,
        per_vertex: true,
        instance_step_rate: 0,
    }
}

/// POSITION as three floats at offset 0, then COLOR as four floats at offset 12.
pub open spec fn spec_input_layout() -> Seq<InputElement> {
    seq![
        vertex_element(Semantic::Position, PixelFormat::R32G32B32Float, 0),
        vertex_element(Semantic::Color, PixelFormat::R32G32B32A32Float, 12),
    ]
}

/// The input-assembler layout of a vertex.
pub fn input_layout() -> (r: Vec<InputElement>)
    ensures
        r@ == spec_input_layout(),
{
    let r = vec![
        InputElement {
            semantic: Semantic::Position,
            semantic_index: 0,
            format: PixelFormat::R32G32B32Float,
            input_slot: 0,
            aligned_byte_offset: 0,
            per_vertex: true,
            instance_step_rate: 0,
        },
        InputElement {
            semantic: Semantic::Color,
            semantic_index: 0,
            format: PixelFormat::R32G32B32A32Float,
            input_slot: 0,
            aligned_byte_offset: 12,
            per_vertex: true,
            instance_step_rate: 0,
        },
    ];
    assert(r@ =~= spec_input_layout());
    r
}

/// The layout's offsets are 0 then 12 and its formats three then four floats, in
/// that order; each element starts where the one before it ends, and the last
/// ends at the vertex stride, so the layout covers a vertex exactly.
pub proof fn lemma_input_layout_packs_vertex()
    ensures
        spec_input_layout().len() == 2,
        spec_input_layout()[0].aligned_byte_offset == 0,
        spec_input_layout()[1].aligned_byte_offset == 12,
        spec_input_layout()[0].format == PixelFormat::R32G32B32Float,
        spec_input_layout()[1].format == PixelFormat::R32G32B32A32Float,
        spec_input_layout()[1].aligned_byte_offset == spec_input_layout()[0].aligned_byte_offset
            + format_size(spec_input_layout()[0].format),
        spec_input_layout()[1].aligned_byte_offset + format_size(spec_input_layout()[1].format)
            == VERTEX_STRIDE,
{
}

#[derive(Clone, Copy, Debug, PartialEq, Eq, Structural)]
pub enum FillMode {
    Solid,
    Wireframe,
}

#[derive(Clone, Copy, Debug, PartialEq, Eq, Structural)]
pub enum CullMode {
    Off,
    Front,
    Back,
}

#[derive(Clone, Copy, Debug, PartialEq, Eq, Structural)]
pub enum TopologyType {
    Point,
    Line,
    Triangle,
}

/// Everything the pipeline state object is baked from, besides the root
/// signature and the shader bytecode.
pub struct PipelineDesc {
    pub input_layout: Vec<InputElement>,
    pub fill_mode: FillMode,
    pub cull_mode: CullMode,
    /// Blending on render target 0; off means the source is written as is.
    pub blend_enabled: bool,
    /// Channels written to render target 0 (bit 0 red to bit 3 alpha).
    pub write_mask: u8,
    pub depth_enabled: bool,
    pub stencil_enabled: bool,
    pub sample_mask: u32,
    pub topology: TopologyType,
    pub render_target_count: u32,
    pub render_target_format: PixelFormat,
    pub sample_count: u32,
    pub sample_quality: u32,
}

/// The triangle's pipeline: the vertex layout above, solid fill with no culling,
/// no blending with every channel written, no depth or stencil, every sample,
/// triangles, one R8G8B8A8_UNORM target, one sample.
pub fn pipeline_desc() -> (r: PipelineDesc)
    ensures
        r.input_layout@ == spec_input_layout(),
        r.fill_mode == FillMode::Solid,
        r.cull_mode == CullMode::Off,
        !r.blend_enabled,
        r.write_mask == 0xf,
        !r.depth_enabled,
        !r.stencil_enabled,
        r.sample_mask == 0xffff_ffff,
        r.topology == TopologyType::Triangle,
        r.render_target_count == 1,
        r.render_target_format == PixelFormat::R8G8B8A8Unorm,
        r.sample_count == 1,
        r.sample_quality == 0,
{
    PipelineDesc {
        input_layout: input_layout(),
        fill_mode: FillMode::Solid,
        cull_mode: CullMode::Off,
        blend_enabled: false,
        write_mask: 0xf,
        depth_enabled: false,
        stencil_enabled: false,
        sample_mask: 0xffff_ffff,
        topology: TopologyType::Triangle,
        render_target_count: 1,
        render_target_format: PixelFormat::R8G8B8A8Unorm,
        sample_count: 1,
        sample_quality: 0,
    }
}

/// What the root signature is serialized from.
#[derive(Clone, Copy, Debug, PartialEq, Eq, Structural)]
pub struct RootSignatureDesc {
    pub parameter_count: u32,
    pub static_sampler_count: u32,
    /// The flag that lets the input assembler use an input layout.
    pub allow_input_layout: bool,
}

/// An empty root signature that allows an input layout.
pub fn root_signature_desc() -> (r: RootSignatureDesc)
    ensures
        r == (RootSignatureDesc { parameter_count: 0, static_sampler_count: 0, allow_input_layout: true }),
{
    RootSignatureDesc { parameter_count: 0, static_sampler_count: 0, allow_input_layout: true }
}

/// How the shaders are compiled.
#[derive(Clone, Copy, Debug, PartialEq, Eq, Structural)]
pub struct CompileOptions {
    pub debug_info: bool,
    pub skip_optimization: bool,
}

/// Debug builds compile with debug information and without optimization.
pub fn compile_options(debug_build: bool) -> (r: CompileOptions)
    ensures
        r == (CompileOptions { debug_info: debug_build, skip_optimization: debug_build }),
{
    CompileOptions { debug_info: debug_build, skip_optimization: debug_build }
}

/// The file, next to the executable, that holds both shaders.
pub fn shader_file() -> (r: &'static str)
    ensures
        r@ == "shaders.hlsl"@,
{
    "shaders.hlsl"
}

/// The two shader stages.
#[derive(Clone, Copy, Debug, PartialEq, Eq, Structural)]
pub enum ShaderStage {
    Vertex,
    Pixel,
}

impl ShaderStage {
    /// The entry point compiled for the stage.
    pub fn entry_point(&self) -> (r: &'static str)
        ensures
            r@ == (match self {
                ShaderStage::Vertex => "VSMain"@,
                ShaderStage::Pixel => "PSMain"@,
            }),
    {
        match self {
            ShaderStage::Vertex => "VSMain",
            ShaderStage::Pixel => "PSMain",
        }
    }

    /// The shader model target of the stage.
    pub fn target(&self) -> (r: &'static str)
        ensures
            r@ == (match self {
                ShaderStage::Vertex => "vs_5_0"@,
                ShaderStage::Pixel => "ps_5_0"@,
            }),
    {
        match self {
            ShaderStage::Vertex => "vs_5_0",
            ShaderStage::Pixel => "ps_5_0",
        }
    }
}

/// How the factory and the device are brought up.
#[derive(Clone, Copy, Debug, PartialEq, Eq, Structural)]
pub struct DeviceOptions {
    /// Enable the API's validation layer before the factory is created.
    pub enable_debug_layer: bool,
    /// Create the factory with its debug flag.
    pub debug_factory: bool,
    /// Take the software (warp) adapter instead of searching for hardware.
    pub use_warp: bool,
    pub feature_level_major: u32,
    pub feature_level_minor: u32,
}

/// Debug builds enable the validation layer and a debug factory; every device
/// is created at feature level 11.0.
pub fn device_options(debug_build: bool, use_warp: bool) -> (r: DeviceOptions)
    ensures
        r == (DeviceOptions {
            enable_debug_layer: debug_build,
            debug_factory: debug_build,
            use_warp,
            feature_level_major: 11,
            feature_level_minor: 0,
        }),
{
    DeviceOptions {
        enable_debug_layer: debug_build,
        debug_factory: debug_build,
        use_warp,
        feature_level_major: 11,
        feature_level_minor: 0,
    }
}

} // verus!
