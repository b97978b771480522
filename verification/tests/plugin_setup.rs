use post_process_pass::plugins::post_process::{
    MainAppStep, PostProcessDefaults, PostProcessPlugin, RenderEdge, RenderNode, Schedule,
    SubGraph,
};
use post_process_pass::plugins::structs::post_processes::{PostProcessLabel, PostProcessShader};
use post_process_pass::plugins::structs::render_resource::ShaderHandle;

/// A topological order of `nodes` under `edges`: repeatedly takes the first
/// node all of whose predecessors were taken.
fn topological_sort(nodes: &[RenderNode], edges: &[RenderEdge]) -> Vec<RenderNode> {
    let mut order: Vec<RenderNode> = Vec::new();
    while order.len() < nodes.len() {
        let next = nodes
            .iter()
            .find(|n| {
                !order.contains(n)
                    && edges.iter().all(|e| e.after != **n || order.contains(&e.before))
            })
            .expect("the graph has a cycle");
        order.push(*next);
    }
    order
}

fn position(order: &[RenderNode], node: RenderNode) -> usize {
    order.iter().position(|n| *n == node).unwrap()
}

#[test]
fn default_configuration_names_the_default_shader() {
    assert_eq!(PostProcessDefaults::default().shader_path, "shaders/post_process.wgsl");
}

#[test]
fn startup_path_is_the_configured_or_the_default() {
    assert_eq!(PostProcessShader::startup_path(None), "shaders/post_process.wgsl");
    let configured = PostProcessDefaults { shader_path: String::from("shaders/other.wgsl") };
    assert_eq!(PostProcessShader::startup_path(Some(&configured)), "shaders/other.wgsl");
    let empty = PostProcessDefaults { shader_path: String::new() };
    assert_eq!(PostProcessShader::startup_path(Some(&empty)), "");
    assert_eq!(
        PostProcessShader::startup_path(Some(&PostProcessDefaults::default())),
        PostProcessShader::startup_path(None)
    );
}

#[test]
fn edges_chain_tonemapping_pass_and_end() {
    assert_eq!(
        PostProcessPlugin::render_graph_edges(),
        vec![
            RenderEdge { before: RenderNode::Tonemapping, after: RenderNode::PostProcess },
            RenderEdge {
                before: RenderNode::PostProcess,
                after: RenderNode::EndMainPassPostProcessing
            },
        ]
    );
}

#[test]
fn build_sets_up_the_render_application() {
    let shader = PostProcessShader(ShaderHandle::Index { bits: 3 });
    let setup = PostProcessPlugin.build(&shader, true).unwrap();
    assert_eq!(setup.shader, shader);
    assert_eq!(setup.sub_graph, SubGraph::Core3d);
    assert_eq!(setup.node, PostProcessLabel);
    assert_eq!(setup.edges, PostProcessPlugin::render_graph_edges());
    assert_eq!(setup.reactor_schedule, Schedule::Render);
}

#[test]
fn main_application_is_set_up_in_order() {
    assert_eq!(
        PostProcessPlugin::main_app_steps(),
        vec![
            MainAppStep::InitDefaults,
            MainAppStep::InitShader,
            MainAppStep::ExtractSettings,
            MainAppStep::UniformSettings,
            MainAppStep::ExtractShader,
        ]
    );
}

#[test]
fn build_without_render_application_sets_up_nothing() {
    let shader = PostProcessShader(ShaderHandle::Index { bits: 3 });
    assert_eq!(PostProcessPlugin.build(&shader, false), None);
}

#[test]
fn finish_creates_the_entry_where_there_is_a_render_application() {
    assert!(PostProcessPlugin.finish(true));
    assert!(!PostProcessPlugin.finish(false));
}

#[test]
fn pass_is_sorted_between_tonemapping_and_end() {
    let edges = PostProcessPlugin::render_graph_edges();
    let t = RenderNode::Tonemapping;
    let p = RenderNode::PostProcess;
    let e = RenderNode::EndMainPassPostProcessing;
    // Whatever order the nodes were registered in.
    for nodes in [[t, p, e], [t, e, p], [p, t, e], [p, e, t], [e, t, p], [e, p, t]] {
        let order = topological_sort(&nodes, &edges);
        assert_eq!(order, vec![t, p, e]);
        assert!(position(&order, t) < position(&order, p));
        assert!(position(&order, p) < position(&order, e));
    }
}

#[test]
fn pass_stays_between_them_among_other_nodes() {
    let mut edges = PostProcessPlugin::render_graph_edges();
    let t = RenderNode::Tonemapping;
    let p = RenderNode::PostProcess;
    let e = RenderNode::EndMainPassPostProcessing;
    let main_pass = RenderNode::Other(1);
    let bloom = RenderNode::Other(2);
    let upscaling = RenderNode::Other(3);
    edges.push(RenderEdge { before: main_pass, after: bloom });
    edges.push(RenderEdge { before: bloom, after: t });
    edges.push(RenderEdge { before: t, after: e });
    edges.push(RenderEdge { before: e, after: upscaling });
    let nodes = [upscaling, e, p, bloom, t, main_pass];
    let order = topological_sort(&nodes, &edges);
    assert_eq!(order.len(), nodes.len());
    assert!(position(&order, t) < position(&order, p));
    assert!(position(&order, p) < position(&order, e));
    assert_eq!(order, vec![main_pass, bloom, t, p, e, upscaling]);
}
