//! The shader selection, the pipeline cache entry, and the render-graph
//! node of the pass.

use crate::consts::app::DEFAULT_SHADER_PATH;
use crate::plugins::post_process::PostProcessDefaults;
use crate::plugins::structs::components::{PostProcessSettings, SettingsLayout};
use crate::plugins::structs::render_resource::{
    BindGroupDescriptor, BindGroupEntry, BindGroupLayoutDescriptor, BindGroupLayoutEntry,
    BindGroupLayoutId, BindingResource, BindingType, BufferBinding, CachedRenderPipelineId,
    ColorTargetState, FragmentState, GpuResource, Operations, PipelineReport, PipelineStatus,
    RenderCommand, RenderPassColorAttachment, RenderPassDescriptor, RenderPipelineDescriptor,
    RenderPipelineId, SamplerDescriptor, SamplerId, ShaderHandle, ShaderStage, TargetFormat,
    TextureViewId, VertexStage, COLOR_WRITES_ALL,
};
use vstd::prelude::*;

verus! {

/// Label of the bind-group layout of the pass.
pub const BIND_GROUP_LAYOUT_LABEL: &'static str = "post_process_bind_group_layout";

/// Label of the render pipeline of the pass.
pub const PIPELINE_LABEL: &'static str = "post_process_pipeline";

/// Label of the bind group that the node builds each frame.
pub const BIND_GROUP_LABEL: &'static str = "post_process_bind_group";

/// Label of the render pass that the node records.
pub const PASS_LABEL: &'static str = "post_process_pass";

/// Name of the fragment shader's entry point.
pub const FRAGMENT_ENTRY_POINT: &'static str = "fragment";

/// Slot of the source texture in the bind group.
pub const SOURCE_TEXTURE_BINDING: u32 = 0;

/// Slot of the sampler in the bind group.
pub const SAMPLER_BINDING: u32 = 1;

/// Slot of the settings block in the bind group.
pub const SETTINGS_BINDING: u32 = 2;

/// The shader that the pass currently uses.
///
/// There is one such cell per application. It is set at startup from the
/// configured path and may be replaced at any time; the pipeline follows at
/// the next run of the reactor.
#[derive(Clone, Copy, Debug, PartialEq, Eq, Structural)]
pub struct PostProcessShader(pub ShaderHandle);

impl PostProcessShader {
    /// The path of the shader asset that is loaded at startup: the
    /// configured one, or the default where nothing is configured.
    pub fn startup_path(defaults: Option<&PostProcessDefaults>) -> (path: String)
        ensures
            path@ == (match defaults {
                Some(d) => d.shader_path@,
                None => DEFAULT_SHADER_PATH@,
            }),
    {
        match defaults {
            Some(d) => d.shader_path.clone(),
            None => DEFAULT_SHADER_PATH.to_owned(),
        }
    }

    /// The cell that selects the shader which was loaded at startup. The
    /// asset behind the handle need not be ready yet.
    pub fn from_world(loaded: ShaderHandle) -> (r: Self)
        ensures
            r.0 == loaded,
    {
        PostProcessShader(loaded)
    }

    /// The selected shader.
    pub fn handle(&self) -> (h: ShaderHandle)
        ensures
            h == self.0,
    {
        self.0
    }

    /// Selects another shader. Nothing else changes.
    pub fn replace(&mut self, new_handle: ShaderHandle)
        ensures
            final(self).0 == new_handle,
    {
        self.0 = new_handle;
    }
}

/// The pipeline cache entry of the pass: the GPU objects that live as long
/// as the shader stays the same.
#[derive(Clone, Copy, Debug, PartialEq, Eq, Structural)]
pub struct PostProcessPipeline {
    /// The bind-group layout: texture, sampler, settings block.
    pub layout: BindGroupLayoutId,
    pub sampler: SamplerId,
    /// The pipeline that was queued last.
    pub pipeline_id: CachedRenderPipelineId,
    /// The shader that `pipeline_id` was queued for.
    pub shader_handle: ShaderHandle,
}

impl PostProcessPipeline {
    /// The slots of the bind-group layout: all are visible to the fragment
    /// stage; slot 0 takes a filterable float texture, slot 1 a filtering
    /// sampler, slot 2 the settings block at a dynamic offset.
    pub open spec fn spec_layout_entries(settings_layout: SettingsLayout) -> Seq<
        BindGroupLayoutEntry,
    > {
        seq![
            BindGroupLayoutEntry {
                binding: 0,
                visibility: ShaderStage::Fragment,
                ty: BindingType::Texture2dFloat { filterable: true },
            },
            BindGroupLayoutEntry {
                binding: 1,
                visibility: ShaderStage::Fragment,
                ty: BindingType::Sampler { filtering: true },
            },
            BindGroupLayoutEntry {
                binding: 2,
                visibility: ShaderStage::Fragment,
                ty: BindingType::UniformBuffer {
                    has_dynamic_offset: true,
                    min_binding_size: PostProcessSettings::spec_size(settings_layout) as u64,
                },
            },
        ]
    }

    /// The request for the bind-group layout of the pass.
    pub fn bind_group_layout(settings_layout: SettingsLayout) -> (d: BindGroupLayoutDescriptor)
        ensures
            d.label@ == BIND_GROUP_LAYOUT_LABEL@,
            d.entries@ == Self::spec_layout_entries(settings_layout),
    {
        let mut entries: Vec<BindGroupLayoutEntry> = Vec::new();
        entries.push(
            BindGroupLayoutEntry {
                binding: SOURCE_TEXTURE_BINDING,
                visibility: ShaderStage::Fragment,
                ty: BindingType::Texture2dFloat { filterable: true },
            },
        );
        entries.push(
            BindGroupLayoutEntry {
                binding: SAMPLER_BINDING,
                visibility: ShaderStage::Fragment,
                ty: BindingType::Sampler { filtering: true },
            },
        );
        entries.push(
            BindGroupLayoutEntry {
                binding: SETTINGS_BINDING,
                visibility: ShaderStage::Fragment,
                ty: BindingType::UniformBuffer {
                    has_dynamic_offset: true,
                    min_binding_size: PostProcessSettings::size(settings_layout) as u64,
                },
            },
        );
        assert(entries@ =~= Self::spec_layout_entries(settings_layout));
        BindGroupLayoutDescriptor { label: BIND_GROUP_LAYOUT_LABEL, entries }
    }

    /// The request for the sampler of the pass: an unlabelled sampler with
    /// the engine's default parameters.
    pub fn sampler_descriptor() -> (d: SamplerDescriptor)
        ensures
            d.label is None,
    {
        SamplerDescriptor { label: None }
    }

    /// The pipeline of the pass for a given shader: the fullscreen triangle
    /// as vertex stage, the shader's `fragment` entry point as fragment
    /// stage, one colour target in the engine's default format that is
    /// written in all channels without blending, no depth or stencil, one
    /// sample per pixel.
    pub open spec fn spec_render_pipeline(
        layout: BindGroupLayoutId,
        shader: ShaderHandle,
    ) -> RenderPipelineDescriptor {
        RenderPipelineDescriptor {
            label: PIPELINE_LABEL,
            layout,
            vertex: VertexStage::FullscreenTriangle,
            fragment: FragmentState {
                shader,
                entry_point: FRAGMENT_ENTRY_POINT,
                target: ColorTargetState {
                    format: TargetFormat::EngineDefault,
                    blend: false,
                    write_mask: COLOR_WRITES_ALL,
                },
            },
            depth_stencil: false,
            sample_count: 1,
            zero_initialize_workgroup_memory: false,
        }
    }

    /// The request to build the pipeline of the pass for `shader`.
    pub fn render_pipeline(layout: BindGroupLayoutId, shader: ShaderHandle) -> (d:
        RenderPipelineDescriptor)
        ensures
            d == Self::spec_render_pipeline(layout, shader),
    {
        RenderPipelineDescriptor {
            label: PIPELINE_LABEL,
            layout,
            vertex: VertexStage::FullscreenTriangle,
            fragment: FragmentState {
                shader,
                entry_point: FRAGMENT_ENTRY_POINT,
                target: ColorTargetState {
                    format: TargetFormat::EngineDefault,
                    blend: false,
                    write_mask: COLOR_WRITES_ALL,
                },
            },
            depth_stencil: false,
            sample_count: 1,
            zero_initialize_workgroup_memory: false,
        }
    }

    /// The first cache entry: the layout and the sampler that were created
    /// from [`Self::bind_group_layout`] and [`Self::sampler_descriptor`],
    /// and the pipeline that was queued from [`Self::render_pipeline`] for
    /// the shader that is selected now.
    pub fn from_world(
        shader_resource: &PostProcessShader,
        layout: BindGroupLayoutId,
        sampler: SamplerId,
        pipeline_id: CachedRenderPipelineId,
    ) -> (r: Self)
        ensures
            r == (PostProcessPipeline {
                layout,
                sampler,
                pipeline_id,
                shader_handle: shader_resource.0,
            }),
            r.in_sync(*shader_resource),
    {
        PostProcessPipeline { layout, sampler, pipeline_id, shader_handle: shader_resource.0 }
    }

    /// Whether the entry was built for the shader that is selected.
    pub open spec fn in_sync(self, shader_resource: PostProcessShader) -> bool {
        self.shader_handle == shader_resource.0
    }
}

/// Label under which the node is registered in the render graph.
#[derive(Clone, Copy, Debug, Hash, PartialEq, Eq, Structural)]
pub struct PostProcessLabel;

/// The two textures of a view between which the pass runs. The pass reads
/// `source` and overwrites `destination`; the engine never hands out the
/// same texture for both.
#[derive(Clone, Copy, Debug, PartialEq, Eq, Structural)]
pub struct PostProcessWrite {
    pub source: TextureViewId,
    pub destination: TextureViewId,
}

impl PostProcessWrite {
    /// The pass is not in place.
    pub open spec fn wf(self) -> bool {
        self.source != self.destination
    }

    /// The pair of textures, unless they are the same texture.
    pub fn new(source: TextureViewId, destination: TextureViewId) -> (r: Option<Self>)
        ensures
            r is Some <==> source != destination,
            r matches Some(w) ==> w.wf() && w.source == source && w.destination == destination,
    {
        if source.0 == destination.0 {
            None
        } else {
            Some(PostProcessWrite { source, destination })
        }
    }
}

/// What the node does for a view in this frame.
#[derive(Clone, Copy, Debug, PartialEq, Eq, Structural)]
pub enum NodeAction {
    /// Nothing is ready to draw with. The view keeps its image; the frame
    /// goes on.
    Skip,
    /// Draw with this compiled pipeline and this binding of the settings
    /// buffer.
    Draw { render_pipeline: RenderPipelineId, settings_binding: BufferBinding },
}

/// Everything that is created and recorded to draw the pass for one view.
#[derive(Clone, Debug, PartialEq, Eq)]
pub struct PassPlan {
    /// The bind group to create first.
    pub bind_group: BindGroupDescriptor,
    /// The render pass to begin then.
    pub pass: RenderPassDescriptor,
    /// The commands to record into the pass, in this order.
    pub commands: Vec<RenderCommand>,
}

/// How a run of the node ended.
#[derive(Clone, Copy, Debug, PartialEq, Eq, Structural)]
pub enum NodeOutcome {
    /// The pass was not drawn; the destination was not touched.
    Skipped,
    /// The destination was overwritten with the processed image.
    Drawn,
}

/// A failure that ends the node's run for this frame.
#[derive(Clone, Copy, Debug, PartialEq, Eq, Structural)]
pub enum NodeRunError {
    /// The driver rejected the creation of a GPU object.
    ResourceCreation(GpuResource),
}

/// The render-graph node of the pass. It runs once per view and frame,
/// after tonemapping and before the end of the main post-processing.
#[derive(Clone, Copy, Debug, Default)]
pub struct PostProcessNode;

impl PostProcessNode {
    /// The decision of [`Self::run`].
    pub open spec fn spec_run(
        pipeline: PostProcessPipeline,
        report: PipelineReport,
        settings_binding: Option<BufferBinding>,
    ) -> NodeAction {
        match (report.status, settings_binding) {
            (PipelineStatus::Ready(render_pipeline), Some(binding)) => if report.pipeline_id
                == pipeline.pipeline_id {
                NodeAction::Draw { render_pipeline, settings_binding: binding }
            } else {
                NodeAction::Skip
            },
            _ => NodeAction::Skip,
        }
    }

    /// Decides whether the pass is drawn for a view.
    ///
    /// `report` is what the pipeline cache answers when asked for the
    /// pipeline of the cache entry, `settings_binding` the binding of the
    /// shared settings buffer, which is absent until the buffer was first
    /// written. The pass is drawn when the entry's pipeline is compiled and
    /// the binding is there. In every other state it is skipped, which is no
    /// error: while the pipeline is queued or compiling, after its build
    /// failed, before the settings were uploaded, and when the report is
    /// about another pipeline than the entry holds now.
    pub fn run(
        &self,
        pipeline: &PostProcessPipeline,
        report: PipelineReport,
        settings_binding: Option<BufferBinding>,
    ) -> (action: NodeAction)
        ensures
            action == Self::spec_run(*pipeline, report, settings_binding),
            action is Draw <==> report.pipeline_id == pipeline.pipeline_id && report.status is Ready
                && settings_binding is Some,
    {
        if report.pipeline_id != pipeline.pipeline_id {
            return NodeAction::Skip;
        }
        match report.status {
            PipelineStatus::Ready(render_pipeline) => match settings_binding {
                Some(binding) => NodeAction::Draw { render_pipeline, settings_binding: binding },
                None => NodeAction::Skip,
            },
            _ => NodeAction::Skip,
        }
    }

    /// The slots of the bind group: the source texture, the sampler of the
    /// cache entry, the settings buffer.
    pub open spec fn spec_bind_group_entries(
        source: TextureViewId,
        sampler: SamplerId,
        settings_binding: BufferBinding,
    ) -> Seq<BindGroupEntry> {
        seq![
            BindGroupEntry { binding: 0, resource: BindingResource::TextureView(source) },
            BindGroupEntry { binding: 1, resource: BindingResource::Sampler(sampler) },
            BindGroupEntry { binding: 2, resource: BindingResource::Buffer(settings_binding) },
        ]
    }

    /// The commands of the pass: select the pipeline, bind the bind group
    /// at index 0 with the view's offset into the settings buffer, draw one
    /// instance of three vertices.
    pub open spec fn spec_commands(render_pipeline: RenderPipelineId, settings_index: u32) -> Seq<
        RenderCommand,
    > {
        seq![
            RenderCommand::SetRenderPipeline(render_pipeline),
            RenderCommand::SetBindGroup { index: 0, dynamic_offset: settings_index },
            RenderCommand::Draw {
                vertex_start: 0,
                vertex_end: 3,
                instance_start: 0,
                instance_end: 1,
            },
        ]
    }

    /// Lays out the pass for a view, as [`Self::run`] decided.
    ///
    /// A skipped pass has no plan: nothing is created, no pass begins, the
    /// destination is not touched. For a pass that is drawn, `write` holds
    /// the view's current image and the texture to write to, and
    /// `settings_index` the view's dynamic offset into the settings buffer.
    /// The bind group has the layout and the sampler of the cache entry; the
    /// pass writes to the destination alone, with default operations and
    /// without depth or stencil.
    pub fn record(
        &self,
        pipeline: &PostProcessPipeline,
        action: &NodeAction,
        write: &PostProcessWrite,
        settings_index: u32,
    ) -> (r: Option<PassPlan>)
        requires
            write.wf(),
        ensures
            r is Some <==> action is Draw,
            (r, *action) matches (Some(plan), NodeAction::Draw { render_pipeline, settings_binding })
                ==> {
                &&& plan.bind_group.label@ == BIND_GROUP_LABEL@
                &&& plan.bind_group.layout == pipeline.layout
                &&& plan.bind_group.entries@ == Self::spec_bind_group_entries(
                    write.source,
                    pipeline.sampler,
                    settings_binding,
                )
                &&& plan.pass == (RenderPassDescriptor {
                    label: PASS_LABEL,
                    color_attachment: RenderPassColorAttachment {
                        view: write.destination,
                        resolve_target: None,
                        ops: Operations::EngineDefault,
                    },
                    depth_stencil_attachment: false,
                })
                &&& plan.commands@ == Self::spec_commands(render_pipeline, settings_index)
                &&& plan.pass.color_attachment.view != write.source
            },
    {
        let (render_pipeline, settings_binding) = match action {
            NodeAction::Skip => {
                return None;
            },
            NodeAction::Draw { render_pipeline, settings_binding } => (
                *render_pipeline,
                *settings_binding,
            ),
        };
        let mut entries: Vec<BindGroupEntry> = Vec::new();
        entries.push(
            BindGroupEntry {
                binding: SOURCE_TEXTURE_BINDING,
                resource: BindingResource::TextureView(write.source),
            },
        );
        entries.push(
            BindGroupEntry {
                binding: SAMPLER_BINDING,
                resource: BindingResource::Sampler(pipeline.sampler),
            },
        );
        entries.push(
            BindGroupEntry {
                binding: SETTINGS_BINDING,
                resource: BindingResource::Buffer(settings_binding),
            },
        );
        assert(entries@ =~= Self::spec_bind_group_entries(
            write.source,
            pipeline.sampler,
            settings_binding,
        ));
        let mut commands: Vec<RenderCommand> = Vec::new();
        commands.push(RenderCommand::SetRenderPipeline(render_pipeline));
        commands.push(RenderCommand::SetBindGroup { index: 0, dynamic_offset: settings_index });
        commands.push(
            RenderCommand::Draw {
                vertex_start: 0,
                vertex_end: 3,
                instance_start: 0,
                instance_end: 1,
            },
        );
        assert(commands@ =~= Self::spec_commands(render_pipeline, settings_index));
        Some(
            PassPlan {
                bind_group: BindGroupDescriptor {
                    label: BIND_GROUP_LABEL,
                    layout: pipeline.layout,
                    entries,
                },
                pass: RenderPassDescriptor {
                    label: PASS_LABEL,
                    color_attachment: RenderPassColorAttachment {
                        view: write.destination,
                        resolve_target: None,
                        ops: Operations::EngineDefault,
                    },
                    depth_stencil_attachment: false,
                },
                commands,
            },
        )
    }

    /// The result of a run, from what was decided and what the driver
    /// reported.
    pub open spec fn spec_finish(action: NodeAction, rejected: Option<GpuResource>) -> Result<
        NodeOutcome,
        NodeRunError,
    > {
        match action {
            NodeAction::Skip => Ok(NodeOutcome::Skipped),
            NodeAction::Draw { .. } => match rejected {
                None => Ok(NodeOutcome::Drawn),
                Some(resource) => Err(NodeRunError::ResourceCreation(resource)),
            },
        }
    }

    /// Ends the run of the node.
    ///
    /// `rejected` names the GPU object whose creation the driver refused
    /// while the plan was carried out, if any. A skipped pass is a success.
    /// A rejected object fails the run for this frame; the cache entry is
    /// not touched by it.
    pub fn finish(&self, action: &NodeAction, rejected: Option<GpuResource>) -> (r: Result<
        NodeOutcome,
        NodeRunError,
    >)
        ensures
            r == Self::spec_finish(*action, rejected),
    {
        match action {
            NodeAction::Skip => Ok(NodeOutcome::Skipped),
            NodeAction::Draw { .. } => match rejected {
                None => Ok(NodeOutcome::Drawn),
                Some(resource) => Err(NodeRunError::ResourceCreation(resource)),
            },
        }
    }

    /// While the entry's pipeline is not compiled, or the settings buffer has
    /// no binding yet, a run of the node is a success that draws nothing,
    /// whatever else is reported to it.
    pub proof fn lemma_not_ready_is_no_error(
        pipeline: PostProcessPipeline,
        report: PipelineReport,
        settings_binding: Option<BufferBinding>,
        rejected: Option<GpuResource>,
    )
        requires
            !(report.status is Ready) || report.pipeline_id != pipeline.pipeline_id
                || settings_binding is None,
        ensures
            Self::spec_run(pipeline, report, settings_binding) == NodeAction::Skip,
            Self::spec_finish(Self::spec_run(pipeline, report, settings_binding), rejected) == Ok::<
                NodeOutcome,
                NodeRunError,
            >(NodeOutcome::Skipped),
    {
    }

    /// The node draws with the pipeline that the cache reports for the
    /// entry, and with no other.
    pub proof fn lemma_draws_with_reported_pipeline(
        pipeline: PostProcessPipeline,
        render_pipeline: RenderPipelineId,
        settings_binding: BufferBinding,
    )
        ensures
            Self::spec_run(
                pipeline,
                PipelineReport {
                    pipeline_id: pipeline.pipeline_id,
                    status: PipelineStatus::Ready(render_pipeline),
                },
                Some(settings_binding),
            ) == (NodeAction::Draw { render_pipeline, settings_binding }),
    {
    }
}

} // verus!
