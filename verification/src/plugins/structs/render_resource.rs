//! Plain descriptions of the GPU objects and requests that the pass deals
//! with.
//!
//! An object that lives on the GPU is named by the identifier that the
//! engine gave it. A request is a value that says what is to be created or
//! recorded; the caller turns it into the engine's call, field by field.

use vstd::prelude::*;

verus! {

/// Names a bind-group layout.
#[derive(Clone, Copy, Debug, PartialEq, Eq, Hash, Structural)]
pub struct BindGroupLayoutId(pub u32);

/// Names a sampler.
#[derive(Clone, Copy, Debug, PartialEq, Eq, Hash, Structural)]
pub struct SamplerId(pub u32);

/// Names a texture view.
#[derive(Clone, Copy, Debug, PartialEq, Eq, Hash, Structural)]
pub struct TextureViewId(pub u32);

/// Names a GPU buffer.
#[derive(Clone, Copy, Debug, PartialEq, Eq, Hash, Structural)]
pub struct BufferId(pub u32);

/// Names a compiled render pipeline.
#[derive(Clone, Copy, Debug, PartialEq, Eq, Hash, Structural)]
pub struct RenderPipelineId(pub u32);

/// The token that the pipeline cache hands out when a build is queued. It
/// is valid at once; the pipeline behind it may be compiled later.
#[derive(Clone, Copy, Debug, PartialEq, Eq, Hash, Structural)]
pub struct CachedRenderPipelineId(pub usize);

/// Identity of a shader asset. Two handles name the same shader exactly
/// when they are equal.
#[derive(Clone, Copy, Debug, PartialEq, Eq, Hash, Structural)]
pub enum ShaderHandle {
    /// A runtime index that the asset store assigned.
    Index { bits: u64 },
    /// An identifier that is stable across runs.
    Uuid { uuid: u128 },
}

/// A shader stage that can see a binding.
#[derive(Clone, Copy, Debug, PartialEq, Eq, Structural)]
pub enum ShaderStage {
    Vertex,
    Fragment,
}

/// What a slot of a bind-group layout accepts.
#[derive(Clone, Copy, Debug, PartialEq, Eq, Structural)]
pub enum BindingType {
    /// A two-dimensional texture that is sampled as floats, not
    /// multisampled.
    Texture2dFloat { filterable: bool },
    /// A sampler; `filtering` tells whether it may interpolate.
    Sampler { filtering: bool },
    /// A uniform buffer of at least `min_binding_size` bytes.
    UniformBuffer { has_dynamic_offset: bool, min_binding_size: u64 },
}

/// One slot of a bind-group layout.
#[derive(Clone, Copy, Debug, PartialEq, Eq, Structural)]
pub struct BindGroupLayoutEntry {
    pub binding: u32,
    pub visibility: ShaderStage,
    pub ty: BindingType,
}

/// Request to create a bind-group layout.
#[derive(Clone, Debug, PartialEq, Eq)]
pub struct BindGroupLayoutDescriptor {
    pub label: &'static str,
    pub entries: Vec<BindGroupLayoutEntry>,
}

/// Request to create a sampler. All sampling parameters are the engine's
/// defaults; only the label can differ.
#[derive(Clone, Copy, Debug, PartialEq, Eq)]
pub struct SamplerDescriptor {
    pub label: Option<&'static str>,
}

/// The vertex stage of a pipeline.
#[derive(Clone, Copy, Debug, PartialEq, Eq, Structural)]
pub enum VertexStage {
    /// The engine's fullscreen triangle: three vertices whose positions the
    /// vertex shader derives from the vertex index. It reads no vertex
    /// buffer.
    FullscreenTriangle,
}

/// The format of a colour target.
#[derive(Clone, Copy, Debug, PartialEq, Eq, Structural)]
pub enum TargetFormat {
    /// The format that the engine renders views in by default.
    EngineDefault,
}

/// Mask that enables writes to all four colour channels.
pub const COLOR_WRITES_ALL: u32 = 0xF;

/// A colour target of a pipeline.
#[derive(Clone, Copy, Debug, PartialEq, Eq, Structural)]
pub struct ColorTargetState {
    pub format: TargetFormat,
    /// Whether the fragment colour is blended with the target's.
    pub blend: bool,
    /// One bit per channel: red, green, blue, alpha.
    pub write_mask: u32,
}

/// The fragment stage of a pipeline, with its single colour target.
#[derive(Clone, Copy, Debug, PartialEq, Eq)]
pub struct FragmentState {
    pub shader: ShaderHandle,
    pub entry_point: &'static str,
    pub target: ColorTargetState,
}

/// Request to build a render pipeline with one bind-group layout and one
/// colour target. Primitive assembly is the engine's default; there are no
/// shader definitions and no push constants.
#[derive(Clone, Copy, Debug, PartialEq, Eq)]
pub struct RenderPipelineDescriptor {
    pub label: &'static str,
    pub layout: BindGroupLayoutId,
    pub vertex: VertexStage,
    pub fragment: FragmentState,
    /// Whether the pipeline tests or writes depth or stencil.
    pub depth_stencil: bool,
    /// Samples per pixel.
    pub sample_count: u32,
    pub zero_initialize_workgroup_memory: bool,
}

/// A range of a buffer that is bound as a whole; `size` is `None` when the
/// range extends to the end of the buffer.
#[derive(Clone, Copy, Debug, PartialEq, Eq, Structural)]
pub struct BufferBinding {
    pub buffer: BufferId,
    pub offset: u64,
    pub size: Option<u64>,
}

/// What is bound to a slot of a bind group.
#[derive(Clone, Copy, Debug, PartialEq, Eq, Structural)]
pub enum BindingResource {
    TextureView(TextureViewId),
    Sampler(SamplerId),
    Buffer(BufferBinding),
}

/// One slot of a bind group.
#[derive(Clone, Copy, Debug, PartialEq, Eq, Structural)]
pub struct BindGroupEntry {
    pub binding: u32,
    pub resource: BindingResource,
}

/// Request to create a bind group.
#[derive(Clone, Debug, PartialEq, Eq)]
pub struct BindGroupDescriptor {
    pub label: &'static str,
    pub layout: BindGroupLayoutId,
    pub entries: Vec<BindGroupEntry>,
}

/// What happens to a colour attachment when a pass begins and ends.
#[derive(Clone, Copy, Debug, PartialEq, Eq, Structural)]
pub enum Operations {
    /// The engine's default operations.
    EngineDefault,
}

/// The colour attachment of a render pass.
#[derive(Clone, Copy, Debug, PartialEq, Eq, Structural)]
pub struct RenderPassColorAttachment {
    pub view: TextureViewId,
    pub resolve_target: Option<TextureViewId>,
    pub ops: Operations,
}

/// Request to begin a render pass with one colour attachment, no timestamp
/// writes and no occlusion queries.
#[derive(Clone, Copy, Debug, PartialEq, Eq)]
pub struct RenderPassDescriptor {
    pub label: &'static str,
    pub color_attachment: RenderPassColorAttachment,
    /// Whether the pass has a depth or stencil attachment.
    pub depth_stencil_attachment: bool,
}

/// A command that is recorded into a render pass.
#[derive(Clone, Copy, Debug, PartialEq, Eq, Structural)]
pub enum RenderCommand {
    /// Use this compiled pipeline for the draws that follow.
    SetRenderPipeline(RenderPipelineId),
    /// Bind the pass's bind group at `index`, with one dynamic offset.
    SetBindGroup { index: u32, dynamic_offset: u32 },
    /// Draw the vertices `vertex_start..vertex_end` for the instances
    /// `instance_start..instance_end`.
    Draw { vertex_start: u32, vertex_end: u32, instance_start: u32, instance_end: u32 },
}

/// The state of a pipeline in the pipeline cache, as the cache reports it
/// when it is asked. Asking never blocks.
#[derive(Clone, Copy, Debug, PartialEq, Eq, Structural)]
pub enum PipelineStatus {
    /// Queued or being compiled.
    Pending,
    /// Compiled; the identifier names the pipeline on the GPU.
    Ready(RenderPipelineId),
    /// The build failed.
    Failed(PipelineFailure),
}

/// What the pipeline cache answers when it is asked for a pipeline: the
/// token that was asked for, and the state of the pipeline behind it.
#[derive(Clone, Copy, Debug, PartialEq, Eq, Structural)]
pub struct PipelineReport {
    pub pipeline_id: CachedRenderPipelineId,
    pub status: PipelineStatus,
}

/// Why the build of a queued pipeline failed.
#[derive(Clone, Copy, Debug, PartialEq, Eq, Structural)]
pub enum PipelineFailure {
    /// The shader asset is not loaded, or its load failed.
    ShaderNotLoaded,
    /// An import of the shader is not available yet.
    ShaderImportNotYetAvailable,
    /// The shader source could not be processed.
    ProcessShader,
    /// The driver rejected the shader module.
    CreateShaderModule,
}

/// A GPU object that the node creates, and whose creation the driver can
/// reject.
#[derive(Clone, Copy, Debug, PartialEq, Eq, Structural)]
pub enum GpuResource {
    BindGroup,
    RenderPass,
}

} // verus!
