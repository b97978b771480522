//! The reactor that keeps the pipeline cache entry in step with the
//! selected shader.
//!
//! It runs once per frame, before the node. Building a pipeline is
//! expensive, so the common case must cost one comparison: nothing is
//! queued unless the selection changed and names another shader than the
//! entry was built for.

use crate::plugins::structs::post_processes::{
    NodeAction, PostProcessNode, PostProcessPipeline, PostProcessShader,
};
use crate::plugins::structs::render_resource::{
    BufferBinding, CachedRenderPipelineId, PipelineReport, PipelineStatus,
    RenderPipelineDescriptor, RenderPipelineId, ShaderHandle,
};
use vstd::prelude::*;

verus! {

/// What the reactor asks for in this frame.
#[derive(Clone, Copy, Debug, PartialEq, Eq)]
pub enum ReactorAction {
    /// The entry stays as it is. Nothing is queued.
    Idle,
    /// Queue this pipeline, then store what the cache answers with
    /// [`store_rebuilt_pipeline`].
    Queue(RenderPipelineDescriptor),
}

/// Whether the entry has to be rebuilt: the selection changed since the
/// last run, and it names another shader than the entry was built for.
pub open spec fn needs_rebuild(
    changed: bool,
    shader_resource: PostProcessShader,
    pipeline: PostProcessPipeline,
) -> bool {
    changed && pipeline.shader_handle != shader_resource.0
}

/// The decision of [`rebuild_pipeline_when_shader_changes`].
pub open spec fn spec_reactor_action(
    changed: bool,
    shader_resource: PostProcessShader,
    pipeline: PostProcessPipeline,
) -> ReactorAction {
    if needs_rebuild(changed, shader_resource, pipeline) {
        ReactorAction::Queue(
            PostProcessPipeline::spec_render_pipeline(pipeline.layout, shader_resource.0),
        )
    } else {
        ReactorAction::Idle
    }
}

/// The entry after the cache answered a queued build: a new identifier
/// replaces the old one together with the shader it was queued for; a
/// build that the cache rejected, so that there is no identifier, leaves
/// the entry as it was.
pub open spec fn spec_stored(
    pipeline: PostProcessPipeline,
    shader_handle: ShaderHandle,
    queued: Option<CachedRenderPipelineId>,
) -> PostProcessPipeline {
    match queued {
        Some(pipeline_id) => PostProcessPipeline { pipeline_id, shader_handle, ..pipeline },
        None => pipeline,
    }
}

/// The entry after one whole run of the reactor, where `queued` is what the
/// cache answers if a build is queued.
pub open spec fn reactor_step(
    changed: bool,
    shader_resource: PostProcessShader,
    pipeline: PostProcessPipeline,
    queued: Option<CachedRenderPipelineId>,
) -> PostProcessPipeline {
    if needs_rebuild(changed, shader_resource, pipeline) {
        spec_stored(pipeline, shader_resource.0, queued)
    } else {
        pipeline
    }
}

/// Decides whether the pipeline has to be queued anew.
///
/// `changed` tells whether the shader selection was written since the last
/// run. If it was not, or if it names the shader that the entry was built
/// for, nothing is to be done. Else the pipeline of the pass is to be
/// queued for the selected shader, with the layout of the entry.
pub fn rebuild_pipeline_when_shader_changes(
    changed: bool,
    shader_resource: &PostProcessShader,
    pipeline: &PostProcessPipeline,
) -> (action: ReactorAction)
    ensures
        action == spec_reactor_action(changed, *shader_resource, *pipeline),
        action is Idle <==> !changed || pipeline.shader_handle == shader_resource.0,
{
    if !changed {
        return ReactorAction::Idle;
    }
    if pipeline.shader_handle == shader_resource.0 {
        return ReactorAction::Idle;
    }
    ReactorAction::Queue(PostProcessPipeline::render_pipeline(pipeline.layout, shader_resource.0))
}

/// Stores the answer of the pipeline cache to a queued build: the
/// identifier of the build, or `None` where the cache rejected it.
///
/// The identifier of an accepted build replaces the old one at once,
/// whether or not the old pipeline was ever compiled: the entry tracks the
/// build that was requested last. A rejected build changes nothing, so the
/// last good pipeline stays in use.
pub fn store_rebuilt_pipeline(
    pipeline: &mut PostProcessPipeline,
    shader_handle: ShaderHandle,
    queued: Option<CachedRenderPipelineId>,
)
    ensures
        *final(pipeline) == spec_stored(*old(pipeline), shader_handle, queued),
{
    match queued {
        Some(pipeline_id) => {
            pipeline.pipeline_id = pipeline_id;
            pipeline.shader_handle = shader_handle;
        },
        None => {},
    }
}

/// While the selection is not written, the reactor queues nothing and the
/// entry stays as it is.
pub proof fn lemma_unchanged_selection_is_idle(
    shader_resource: PostProcessShader,
    pipeline: PostProcessPipeline,
    queued: Option<CachedRenderPipelineId>,
)
    ensures
        spec_reactor_action(false, shader_resource, pipeline) == ReactorAction::Idle,
        reactor_step(false, shader_resource, pipeline, queued) == pipeline,
{
}

/// Selecting the shader that the entry was built for queues nothing: the
/// pipeline identifier, and all of the entry, stay the same.
pub proof fn lemma_same_shader_keeps_pipeline(
    changed: bool,
    shader_resource: PostProcessShader,
    pipeline: PostProcessPipeline,
    queued: Option<CachedRenderPipelineId>,
)
    requires
        shader_resource.0 == pipeline.shader_handle,
    ensures
        spec_reactor_action(changed, shader_resource, pipeline) == ReactorAction::Idle,
        reactor_step(changed, shader_resource, pipeline, queued) == pipeline,
        reactor_step(changed, shader_resource, pipeline, queued).pipeline_id
            == pipeline.pipeline_id,
{
}

/// Selecting another shader makes the next run of the reactor queue the
/// pipeline for it; once the cache has answered with an identifier, the
/// entry names the new shader and holds that identifier in place of the
/// previous one. Layout and sampler are kept.
pub proof fn lemma_changed_shader_is_rebuilt(
    shader_resource: PostProcessShader,
    pipeline: PostProcessPipeline,
    pipeline_id: CachedRenderPipelineId,
)
    requires
        shader_resource.0 != pipeline.shader_handle,
    ensures
        spec_reactor_action(true, shader_resource, pipeline) == ReactorAction::Queue(
            PostProcessPipeline::spec_render_pipeline(pipeline.layout, shader_resource.0),
        ),
        reactor_step(true, shader_resource, pipeline, Some(pipeline_id)) == (PostProcessPipeline {
            layout: pipeline.layout,
            sampler: pipeline.sampler,
            pipeline_id,
            shader_handle: shader_resource.0,
        }),
        pipeline_id != pipeline.pipeline_id ==> reactor_step(
            true,
            shader_resource,
            pipeline,
            Some(pipeline_id),
        ).pipeline_id != pipeline.pipeline_id,
{
}

/// A build that the cache rejects leaves the entry, and with it the last
/// good pipeline identifier, as it was.
pub proof fn lemma_rejected_build_keeps_entry(
    changed: bool,
    shader_resource: PostProcessShader,
    pipeline: PostProcessPipeline,
)
    ensures
        reactor_step(changed, shader_resource, pipeline, None) == pipeline,
{
}

/// After a run of the reactor whose build, if any, was accepted, the entry
/// is built for the selected shader, provided that it was so before the
/// selection was last written.
pub proof fn lemma_reactor_restores_sync(
    changed: bool,
    shader_resource: PostProcessShader,
    pipeline: PostProcessPipeline,
    pipeline_id: CachedRenderPipelineId,
)
    requires
        changed || pipeline.in_sync(shader_resource),
    ensures
        reactor_step(changed, shader_resource, pipeline, Some(pipeline_id)).in_sync(
            shader_resource,
        ),
{
}

/// When the selection changes again before the first build is compiled,
/// the entry follows the later request: it holds the identifier and the
/// shader of the build that was queued last.
pub proof fn lemma_latest_request_wins(
    first: PostProcessShader,
    second: PostProcessShader,
    pipeline: PostProcessPipeline,
    first_id: CachedRenderPipelineId,
    second_id: CachedRenderPipelineId,
)
    requires
        first.0 != pipeline.shader_handle,
        second.0 != first.0,
    ensures
        ({
            let after_first = reactor_step(true, first, pipeline, Some(first_id));
            let after_second = reactor_step(true, second, after_first, Some(second_id));
            after_second.pipeline_id == second_id && after_second.shader_handle == second.0
        }),
{
}

/// Once the reactor has stored a rebuilt pipeline, the node no longer draws
/// with the one it replaced: a report about the old identifier is skipped,
/// and the first frame in which the new pipeline is reported ready draws
/// with it. Until then the pass is skipped, which is no error.
pub proof fn lemma_node_follows_rebuild(
    shader_resource: PostProcessShader,
    pipeline: PostProcessPipeline,
    pipeline_id: CachedRenderPipelineId,
    old_status: PipelineStatus,
    render_pipeline: RenderPipelineId,
    settings_binding: BufferBinding,
)
    requires
        shader_resource.0 != pipeline.shader_handle,
        pipeline_id != pipeline.pipeline_id,
    ensures
        ({
            let rebuilt = reactor_step(true, shader_resource, pipeline, Some(pipeline_id));
            &&& PostProcessNode::spec_run(
                rebuilt,
                PipelineReport { pipeline_id: pipeline.pipeline_id, status: old_status },
                Some(settings_binding),
            ) == NodeAction::Skip
            &&& PostProcessNode::spec_run(
                rebuilt,
                PipelineReport { pipeline_id, status: PipelineStatus::Pending },
                Some(settings_binding),
            ) == NodeAction::Skip
            &&& PostProcessNode::spec_run(
                rebuilt,
                PipelineReport { pipeline_id, status: PipelineStatus::Ready(render_pipeline) },
                Some(settings_binding),
            ) == (NodeAction::Draw { render_pipeline, settings_binding })
        }),
{
}

} // verus!
