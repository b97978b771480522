use core::num::NonZero;

use bevy::asset::uuid::Uuid;
use bevy::asset::{AssetId, AssetIndex, Handle};
use bevy::core_pipeline::fullscreen_vertex_shader::fullscreen_shader_vertex_state;
use bevy::render::render_resource::binding_types::{sampler, texture_2d, uniform_buffer_sized};
use bevy::render::render_resource::encase::UniformBuffer;
use bevy::render::render_resource::{
    BindGroupLayoutEntries, BindingType as EngineBindingType, BufferBindingType,
    CachedRenderPipelineId as EngineCachedId, ColorWrites, MultisampleState, SamplerBindingType,
    Shader, ShaderStages, TextureSampleType, TextureViewDimension,
};
use post_process_pass::plugins::structs::components::{
    Binary32, EdgeSettings, PostProcessSettings, SettingsLayout,
};
use post_process_pass::plugins::structs::post_processes::PostProcessPipeline;
use post_process_pass::plugins::structs::render_resource::{
    BindGroupLayoutEntry, BindGroupLayoutId, BindingType, CachedRenderPipelineId, ShaderHandle,
    ShaderStage, VertexStage, COLOR_WRITES_ALL,
};

fn engine_entry(entry: &BindGroupLayoutEntry) -> bevy::render::render_resource::BindGroupLayoutEntry {
    bevy::render::render_resource::BindGroupLayoutEntry {
        binding: entry.binding,
        visibility: match entry.visibility {
            ShaderStage::Vertex => ShaderStages::VERTEX,
            ShaderStage::Fragment => ShaderStages::FRAGMENT,
        },
        ty: match entry.ty {
            BindingType::Texture2dFloat { filterable } => EngineBindingType::Texture {
                sample_type: TextureSampleType::Float { filterable },
                view_dimension: TextureViewDimension::D2,
                multisampled: false,
            },
            BindingType::Sampler { filtering: true } => {
                EngineBindingType::Sampler(SamplerBindingType::Filtering)
            }
            BindingType::Sampler { filtering: false } => {
                EngineBindingType::Sampler(SamplerBindingType::NonFiltering)
            }
            BindingType::UniformBuffer { has_dynamic_offset, min_binding_size } => {
                EngineBindingType::Buffer {
                    ty: BufferBindingType::Uniform,
                    has_dynamic_offset,
                    min_binding_size: NonZero::<u64>::new(min_binding_size),
                }
            }
        },
        count: None,
    }
}

fn plain_handle(handle: &Handle<Shader>) -> ShaderHandle {
    match handle.id() {
        AssetId::Index { index, .. } => ShaderHandle::Index { bits: index.to_bits() },
        AssetId::Uuid { uuid } => ShaderHandle::Uuid { uuid: uuid.as_u128() },
    }
}

fn engine_bytes_of_u32(value: u32) -> Vec<u8> {
    let mut buffer = UniformBuffer::new(Vec::<u8>::new());
    buffer.write(&value).unwrap();
    buffer.into_inner()
}

fn engine_bytes_of_i32(value: i32) -> Vec<u8> {
    let mut buffer = UniformBuffer::new(Vec::<u8>::new());
    buffer.write(&value).unwrap();
    buffer.into_inner()
}

fn engine_bytes_of_f32(value: f32) -> Vec<u8> {
    let mut buffer = UniformBuffer::new(Vec::<u8>::new());
    buffer.write(&value).unwrap();
    buffer.into_inner()
}

#[test]
fn layout_slots_are_those_of_the_engine_numbered_in_sequence() {
    for layout in [SettingsLayout::StandardLayout, SettingsLayout::AlignmentPaddedLayout] {
        let size = PostProcessSettings::size(layout) as u64;
        let engine = BindGroupLayoutEntries::sequential(
            ShaderStages::FRAGMENT,
            (
                texture_2d(TextureSampleType::Float { filterable: true }),
                sampler(SamplerBindingType::Filtering),
                uniform_buffer_sized(true, NonZero::<u64>::new(size)),
            ),
        );
        let request = PostProcessPipeline::bind_group_layout(layout);
        let converted: Vec<_> = request.entries.iter().map(engine_entry).collect();
        assert_eq!(converted.as_slice(), &*engine);
    }
}

#[test]
fn fullscreen_triangle_of_the_engine_reads_no_vertex_buffer() {
    let request = PostProcessPipeline::render_pipeline(
        BindGroupLayoutId(1),
        ShaderHandle::Index { bits: 1 },
    );
    assert_eq!(request.vertex, VertexStage::FullscreenTriangle);
    let state = fullscreen_shader_vertex_state();
    assert!(state.buffers.is_empty());
    assert!(state.shader_defs.is_empty());
}

#[test]
fn pipeline_request_agrees_with_the_engine_defaults() {
    let request = PostProcessPipeline::render_pipeline(
        BindGroupLayoutId(1),
        ShaderHandle::Index { bits: 1 },
    );
    assert_eq!(request.sample_count, MultisampleState::default().count);
    assert_eq!(request.fragment.target.write_mask, ColorWrites::ALL.bits());
    assert_eq!(
        ColorWrites::from_bits_truncate(COLOR_WRITES_ALL),
        ColorWrites::RED | ColorWrites::GREEN | ColorWrites::BLUE | ColorWrites::ALPHA
    );
}

#[test]
fn plain_handles_are_equal_exactly_when_the_engine_handles_are() {
    let handles: Vec<Handle<Shader>> = vec![
        Handle::Weak(AssetId::from(AssetIndex::from_bits(0))),
        Handle::Weak(AssetId::from(AssetIndex::from_bits(7))),
        Handle::Weak(AssetId::from(AssetIndex::from_bits(7))),
        Handle::Weak(AssetId::from(AssetIndex::from_bits((3 << 32) | 7))),
        Handle::Weak(AssetId::Uuid { uuid: Uuid::from_u128(7) }),
        Handle::Weak(AssetId::Uuid { uuid: Uuid::from_u128(7) }),
        Handle::Weak(AssetId::Uuid { uuid: Uuid::from_u128(u128::MAX) }),
    ];
    for a in &handles {
        for b in &handles {
            assert_eq!(a == b, plain_handle(a) == plain_handle(b));
        }
    }
    assert_eq!(plain_handle(&handles[3]), ShaderHandle::Index { bits: (3 << 32) | 7 });
    assert_eq!(plain_handle(&handles[6]), ShaderHandle::Uuid { uuid: u128::MAX });
}

#[test]
fn cached_pipeline_token_is_an_index() {
    assert_eq!(CachedRenderPipelineId(EngineCachedId::INVALID.id()).0, usize::MAX);
}

#[test]
fn words_are_encoded_as_the_engine_encodes_scalars() {
    for value in [0u32, 1, 0x0403_0201, 0x8000_0000, u32::MAX] {
        let edge = EdgeSettings { is_enable: value, edge_strength: Binary32::zero() };
        assert_eq!(
            edge.to_bytes(SettingsLayout::StandardLayout)[0..4],
            engine_bytes_of_u32(value)[..]
        );
    }
    for value in [0.0f32, -0.0, 0.05, 1280.0, f32::MAX, f32::MIN_POSITIVE, f32::INFINITY] {
        let edge =
            EdgeSettings { is_enable: 0, edge_strength: Binary32::from_bits(value.to_bits()) };
        assert_eq!(
            edge.to_bytes(SettingsLayout::StandardLayout)[4..8],
            engine_bytes_of_f32(value)[..]
        );
    }
    for value in [0i32, 2, -1, -3, i32::MIN, i32::MAX] {
        let mut settings = PostProcessSettings::default();
        settings.dither.scale = value;
        assert_eq!(
            settings.to_bytes(SettingsLayout::StandardLayout)[28..32],
            engine_bytes_of_i32(value)[..]
        );
    }
}
