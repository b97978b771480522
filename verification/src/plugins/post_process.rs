//! How the pass is set up in an application: its configuration, and where
//! its node stands in the render graph.

use crate::consts::app::DEFAULT_SHADER_PATH;
use crate::plugins::structs::post_processes::{PostProcessLabel, PostProcessShader};
use vstd::prelude::*;

verus! {

/// Configuration of the pass that an application may provide before the
/// plugin is built.
#[derive(Clone, Debug, PartialEq, Eq)]
pub struct PostProcessDefaults {
    /// Asset path of the shader that is selected at startup.
    pub shader_path: String,
}

impl Default for PostProcessDefaults {
    fn default() -> (r: Self)
        ensures
            r.shader_path@ == DEFAULT_SHADER_PATH@,
    {
        PostProcessDefaults { shader_path: DEFAULT_SHADER_PATH.to_owned() }
    }
}

/// A node of the render graph of a three-dimensional view.
#[derive(Clone, Copy, Debug, PartialEq, Eq, Hash, Structural)]
pub enum RenderNode {
    /// The engine's tonemapping.
    Tonemapping,
    /// The node of this pass, registered under [`PostProcessLabel`].
    PostProcess,
    /// The engine's marker for the end of the main post-processing.
    EndMainPassPostProcessing,
    /// Any other node of the graph.
    Other(u32),
}

/// An edge of the render graph: `before` runs before `after`.
#[derive(Clone, Copy, Debug, PartialEq, Eq, Hash, Structural)]
pub struct RenderEdge {
    pub before: RenderNode,
    pub after: RenderNode,
}

/// A step of the set-up in the main application.
#[derive(Clone, Copy, Debug, PartialEq, Eq, Hash, Structural)]
pub enum MainAppStep {
    /// Provide [`PostProcessDefaults`], unless the application did.
    InitDefaults,
    /// Load the startup shader and provide the shader selection.
    InitShader,
    /// Copy the settings of each camera into the render application, every
    /// frame.
    ExtractSettings,
    /// Write the extracted settings into the shared uniform buffer, one
    /// block per camera at its dynamic offset, every frame before the render
    /// graph runs.
    UniformSettings,
    /// Copy the shader selection into the render application whenever it
    /// was written.
    ExtractShader,
}

/// A render graph of the engine.
#[derive(Clone, Copy, Debug, PartialEq, Eq, Hash, Structural)]
pub enum SubGraph {
    /// The graph of three-dimensional views.
    Core3d,
}

/// A schedule of the render application.
#[derive(Clone, Copy, Debug, PartialEq, Eq, Hash, Structural)]
pub enum Schedule {
    /// The schedule that prepares and runs the render graph each frame.
    Render,
}

/// What the plugin sets up in the render application.
#[derive(Clone, Debug, PartialEq, Eq)]
pub struct RenderSetup {
    /// The shader selection, copied over from the main application.
    pub shader: PostProcessShader,
    /// The graph that the node is added to.
    pub sub_graph: SubGraph,
    /// The label under which the node is added.
    pub node: PostProcessLabel,
    /// The edges that are added to the graph.
    pub edges: Vec<RenderEdge>,
    /// The schedule that the reactor is added to.
    pub reactor_schedule: Schedule,
}

/// The plugin that adds the pass to an application.
#[derive(Clone, Copy, Debug, Default)]
pub struct PostProcessPlugin;

/// The edges of the pass: it runs after tonemapping, so that the effects
/// see tonemapped colour, and before the end of the main post-processing,
/// so that later effects see theirs.
pub open spec fn spec_render_graph_edges() -> Seq<RenderEdge> {
    seq![
        RenderEdge { before: RenderNode::Tonemapping, after: RenderNode::PostProcess },
        RenderEdge { before: RenderNode::PostProcess, after: RenderNode::EndMainPassPostProcessing },
    ]
}

/// Whether a node stands at most once in an order of execution.
pub open spec fn no_node_twice(order: Seq<RenderNode>) -> bool {
    forall|i: int, j: int| 0 <= i < j < order.len() ==> order[i] != order[j]
}

/// Whether an order of execution honours an edge: both ends run, the first
/// before the second.
pub open spec fn honours_edge(order: Seq<RenderNode>, edge: RenderEdge) -> bool {
    exists|i: int, j: int|
        0 <= i < j < order.len() && #[trigger] order[i] == edge.before && #[trigger] order[j]
            == edge.after
}

/// Whether an order of execution honours every edge of a set.
pub open spec fn honours_edges(order: Seq<RenderNode>, edges: Seq<RenderEdge>) -> bool {
    forall|k: int| 0 <= k < edges.len() ==> honours_edge(order, #[trigger] edges[k])
}

/// The steps of the set-up in the main application, in their order.
pub open spec fn spec_main_app_steps() -> Seq<MainAppStep> {
    seq![
        MainAppStep::InitDefaults,
        MainAppStep::InitShader,
        MainAppStep::ExtractSettings,
        MainAppStep::UniformSettings,
        MainAppStep::ExtractShader,
    ]
}

impl PostProcessPlugin {
    /// What is set up in the main application when the plugin is built,
    /// before anything is set up in the render application: the
    /// configuration, the shader selection, which needs the configuration,
    /// and the extraction of settings and selection.
    pub fn main_app_steps() -> (steps: Vec<MainAppStep>)
        ensures
            steps@ == spec_main_app_steps(),
    {
        let mut steps: Vec<MainAppStep> = Vec::new();
        steps.push(MainAppStep::InitDefaults);
        steps.push(MainAppStep::InitShader);
        steps.push(MainAppStep::ExtractSettings);
        steps.push(MainAppStep::UniformSettings);
        steps.push(MainAppStep::ExtractShader);
        assert(steps@ =~= spec_main_app_steps());
        steps
    }

    /// The edges that tie the node into the render graph.
    pub fn render_graph_edges() -> (edges: Vec<RenderEdge>)
        ensures
            edges@ == spec_render_graph_edges(),
    {
        let mut edges: Vec<RenderEdge> = Vec::new();
        edges.push(RenderEdge { before: RenderNode::Tonemapping, after: RenderNode::PostProcess });
        edges.push(
            RenderEdge {
                before: RenderNode::PostProcess,
                after: RenderNode::EndMainPassPostProcessing,
            },
        );
        assert(edges@ =~= spec_render_graph_edges());
        edges
    }

    /// What is set up in the render application when the plugin is built,
    /// after the steps of [`Self::main_app_steps`].
    ///
    /// `shader` is the selection that the main application holds by then.
    /// Without a render application nothing is set up there. With one, the
    /// selection is copied into it, the node is added to the graph of
    /// three-dimensional views under its label with the edges of
    /// [`Self::render_graph_edges`], and the reactor is added to the render
    /// schedule.
    pub fn build(&self, shader: &PostProcessShader, has_render_app: bool) -> (setup: Option<
        RenderSetup,
    >)
        ensures
            setup is Some <==> has_render_app,
            setup matches Some(s) ==> s.shader == *shader && s.sub_graph == SubGraph::Core3d
                && s.node == PostProcessLabel && s.edges@ == spec_render_graph_edges()
                && s.reactor_schedule == Schedule::Render,
    {
        if has_render_app {
            Some(
                RenderSetup {
                    shader: *shader,
                    sub_graph: SubGraph::Core3d,
                    node: PostProcessLabel,
                    edges: Self::render_graph_edges(),
                    reactor_schedule: Schedule::Render,
                },
            )
        } else {
            None
        }
    }

    /// Whether the pipeline cache entry is created when the plugin is
    /// finished: it is, in the render application, where there is one.
    pub fn finish(&self, has_render_app: bool) -> (init_pipeline: bool)
        ensures
            init_pipeline == has_render_app,
    {
        has_render_app
    }
}

/// In every order of execution that runs no node twice and honours the
/// edges of the pass, the node of the pass runs strictly between
/// tonemapping and the end of the main post-processing.
pub proof fn lemma_pass_runs_between(order: Seq<RenderNode>, t: int, p: int, e: int)
    requires
        no_node_twice(order),
        honours_edges(order, spec_render_graph_edges()),
        0 <= t < order.len() && order[t] == RenderNode::Tonemapping,
        0 <= p < order.len() && order[p] == RenderNode::PostProcess,
        0 <= e < order.len() && order[e] == RenderNode::EndMainPassPostProcessing,
    ensures
        t < p < e,
{
    let edges = spec_render_graph_edges();
    assert(honours_edge(order, edges[0]));
    assert(honours_edge(order, edges[1]));
    let (i0, j0) = choose|i: int, j: int|
        0 <= i < j < order.len() && #[trigger] order[i] == edges[0].before && #[trigger] order[j]
            == edges[0].after;
    let (i1, j1) = choose|i: int, j: int|
        0 <= i < j < order.len() && #[trigger] order[i] == edges[1].before && #[trigger] order[j]
            == edges[1].after;
    assert(i0 == t) by {
        if i0 < t {
            assert(order[i0] != order[t]);
        } else if t < i0 {
            assert(order[t] != order[i0]);
        }
    }
    assert(j0 == p) by {
        if j0 < p {
            assert(order[j0] != order[p]);
        } else if p < j0 {
            assert(order[p] != order[j0]);
        }
    }
    assert(i1 == p) by {
        if i1 < p {
            assert(order[i1] != order[p]);
        } else if p < i1 {
            assert(order[p] != order[i1]);
        }
    }
    assert(j1 == e) by {
        if j1 < e {
            assert(order[j1] != order[e]);
        } else if e < j1 {
            assert(order[e] != order[j1]);
        }
    }
}

/// An order of execution that honours the edges of the pass runs all three
/// of tonemapping, the pass and the end of the main post-processing.
pub proof fn lemma_pass_is_scheduled(order: Seq<RenderNode>)
    requires
        honours_edges(order, spec_render_graph_edges()),
    ensures
        order.contains(RenderNode::Tonemapping),
        order.contains(RenderNode::PostProcess),
        order.contains(RenderNode::EndMainPassPostProcessing),
{
    let edges = spec_render_graph_edges();
    assert(honours_edge(order, edges[0]));
    assert(honours_edge(order, edges[1]));
    let (i0, j0) = choose|i: int, j: int|
        0 <= i < j < order.len() && #[trigger] order[i] == edges[0].before && #[trigger] order[j]
            == edges[0].after;
    let (i1, j1) = choose|i: int, j: int|
        0 <= i < j < order.len() && #[trigger] order[i] == edges[1].before && #[trigger] order[j]
            == edges[1].after;
    assert(order[i0] == RenderNode::Tonemapping);
    assert(order[j0] == RenderNode::PostProcess);
    assert(order[j1] == RenderNode::EndMainPassPostProcessing);
}

} // verus!
