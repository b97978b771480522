use post_process_pass::consts::app::{
    DEFAULT_DITHER_ENABLE, DEFAULT_DITHER_INTENSITY, DEFAULT_DITHER_MONOCHROME,
    DEFAULT_DITHER_SCALE, DEFAULT_EDGE_ENABLE, DEFAULT_EDGE_STRENGTH, DEFAULT_POSTPROCESS_ENABLE,
    DEFAULT_SHADER_PATH, DEFAULT_WEIGHT_SCALE, GAME_HEIGHT, GAME_WIDTH,
};
use post_process_pass::plugins::structs::components::{
    required_alignment, Binary32, DitherSettings, EdgeSettings, PostProcessSettings,
    SettingsLayout, DITHER_OFFSET, DITHER_SIZE, EDGE_OFFSET, UNIFORM_ROW, WORD_SIZE,
};

const LAYOUTS: [SettingsLayout; 2] =
    [SettingsLayout::StandardLayout, SettingsLayout::AlignmentPaddedLayout];

fn bits_of(value: f32) -> Binary32 {
    Binary32::from_bits(value.to_bits())
}

fn sample_settings() -> PostProcessSettings {
    PostProcessSettings {
        is_enable: 0,
        screen_width: bits_of(1920.0),
        screen_height: bits_of(1080.0),
        _pad_0: bits_of(0.0),
        dither: DitherSettings {
            is_enable: 1,
            is_monochrome: 1,
            intensity: bits_of(0.25),
            scale: -3,
            weight_scaling: bits_of(4.0),
            _pad_0: bits_of(0.0),
            _pad_1: bits_of(0.0),
            _pad_2: bits_of(0.0),
        },
        edge: EdgeSettings { is_enable: 0, edge_strength: bits_of(0.5) },
    }
}

#[test]
fn constants_hold_the_documented_defaults() {
    assert_eq!(f32::from_bits(GAME_WIDTH), 1280.0);
    assert_eq!(f32::from_bits(GAME_HEIGHT), 720.0);
    assert_eq!(f32::from_bits(DEFAULT_DITHER_INTENSITY), 0.01);
    assert_eq!(f32::from_bits(DEFAULT_WEIGHT_SCALE), 2.0);
    assert_eq!(f32::from_bits(DEFAULT_EDGE_STRENGTH), 0.05);
    assert_eq!(DEFAULT_POSTPROCESS_ENABLE, 1);
    assert_eq!(DEFAULT_DITHER_ENABLE, 1);
    assert_eq!(DEFAULT_DITHER_MONOCHROME, 0);
    assert_eq!(DEFAULT_DITHER_SCALE, 2);
    assert_eq!(DEFAULT_EDGE_ENABLE, 1);
    assert_eq!(DEFAULT_SHADER_PATH, "shaders/post_process.wgsl");
}

#[test]
fn binary32_keeps_its_bits() {
    let x = Binary32::from_bits(0x3C23_D70A);
    assert_eq!(x.to_bits(), 0x3C23_D70A);
    assert_eq!(x.bits, 0.01f32.to_bits());
    assert_eq!(Binary32::zero().to_bits(), 0);
    assert_eq!(f32::from_bits(Binary32::zero().to_bits()), 0.0);
}

#[test]
fn dither_defaults() {
    let d = DitherSettings::default();
    assert_eq!(d.is_enable, 1);
    assert_eq!(d.is_monochrome, 0);
    assert_eq!(f32::from_bits(d.intensity.bits), 0.01);
    assert_eq!(d.scale, 2);
    assert_eq!(f32::from_bits(d.weight_scaling.bits), 2.0);
    assert_eq!(d._pad_0, Binary32::zero());
    assert_eq!(d._pad_1, Binary32::zero());
    assert_eq!(d._pad_2, Binary32::zero());
}

#[test]
fn edge_defaults() {
    let e = EdgeSettings::default();
    assert_eq!(e.is_enable, 1);
    assert_eq!(f32::from_bits(e.edge_strength.bits), 0.05);
}

#[test]
fn settings_defaults() {
    let s = PostProcessSettings::default();
    assert_eq!(s.is_enable, 1);
    assert_eq!(f32::from_bits(s.screen_width.bits), 1280.0);
    assert_eq!(f32::from_bits(s.screen_height.bits), 720.0);
    assert_eq!(s._pad_0, Binary32::zero());
    assert_eq!(s.dither, DitherSettings::default());
    assert_eq!(s.edge, EdgeSettings::default());
}

#[test]
fn default_dither_bytes_match_reference() {
    let expected: Vec<u8> = vec![
        0x01, 0x00, 0x00, 0x00, // is_enable
        0x00, 0x00, 0x00, 0x00, // is_monochrome
        0x0A, 0xD7, 0x23, 0x3C, // intensity
        0x02, 0x00, 0x00, 0x00, // scale
        0x00, 0x00, 0x00, 0x40, // weight_scaling
        0x00, 0x00, 0x00, 0x00, 0x00, 0x00, 0x00, 0x00, 0x00, 0x00, 0x00, 0x00, // padding
    ];
    for layout in LAYOUTS {
        assert_eq!(DitherSettings::default().to_bytes(layout), expected);
    }
}

#[test]
fn default_edge_bytes_match_reference() {
    let standard: Vec<u8> = vec![0x01, 0x00, 0x00, 0x00, 0xCD, 0xCC, 0x4C, 0x3D];
    let mut padded = standard.clone();
    padded.extend_from_slice(&[0u8; 8]);
    let e = EdgeSettings::default();
    assert_eq!(e.to_bytes(SettingsLayout::StandardLayout), standard);
    assert_eq!(e.to_bytes(SettingsLayout::AlignmentPaddedLayout), padded);
}

#[test]
fn default_settings_bytes_match_reference() {
    let standard: Vec<u8> = vec![
        0x01, 0x00, 0x00, 0x00, // is_enable
        0x00, 0x00, 0xA0, 0x44, // screen_width
        0x00, 0x00, 0x34, 0x44, // screen_height
        0x00, 0x00, 0x00, 0x00, // padding
        0x01, 0x00, 0x00, 0x00, // dither.is_enable
        0x00, 0x00, 0x00, 0x00, // dither.is_monochrome
        0x0A, 0xD7, 0x23, 0x3C, // dither.intensity
        0x02, 0x00, 0x00, 0x00, // dither.scale
        0x00, 0x00, 0x00, 0x40, // dither.weight_scaling
        0x00, 0x00, 0x00, 0x00, 0x00, 0x00, 0x00, 0x00, 0x00, 0x00, 0x00, 0x00, // padding
        0x01, 0x00, 0x00, 0x00, // edge.is_enable
        0xCD, 0xCC, 0x4C, 0x3D, // edge.edge_strength
    ];
    let mut padded = standard.clone();
    padded.extend_from_slice(&[0u8; 24]);
    let s = PostProcessSettings::default();
    assert_eq!(s.to_bytes(SettingsLayout::StandardLayout), standard);
    assert_eq!(s.to_bytes(SettingsLayout::AlignmentPaddedLayout), padded);
}

#[test]
fn sizes_are_those_of_the_reference_layout() {
    assert_eq!(WORD_SIZE, 4);
    assert_eq!(UNIFORM_ROW, 16);
    assert_eq!(DITHER_SIZE, 32);
    assert_eq!(DITHER_OFFSET, 16);
    assert_eq!(EDGE_OFFSET, 48);
    assert_eq!(DitherSettings::size(SettingsLayout::StandardLayout), 32);
    assert_eq!(DitherSettings::size(SettingsLayout::AlignmentPaddedLayout), 32);
    assert_eq!(EdgeSettings::size(SettingsLayout::StandardLayout), 8);
    assert_eq!(EdgeSettings::size(SettingsLayout::AlignmentPaddedLayout), 16);
    assert_eq!(PostProcessSettings::size(SettingsLayout::StandardLayout), 56);
    assert_eq!(PostProcessSettings::size(SettingsLayout::AlignmentPaddedLayout), 80);
}

#[test]
fn serialized_length_is_the_size_and_a_multiple_of_the_alignment() {
    assert_eq!(required_alignment(SettingsLayout::StandardLayout), 4);
    assert_eq!(required_alignment(SettingsLayout::AlignmentPaddedLayout), 16);
    for s in [PostProcessSettings::default(), sample_settings()] {
        for layout in LAYOUTS {
            let align = required_alignment(layout);
            let whole = s.to_bytes(layout);
            let dither = s.dither.to_bytes(layout);
            let edge = s.edge.to_bytes(layout);
            assert_eq!(whole.len(), PostProcessSettings::size(layout));
            assert_eq!(dither.len(), DitherSettings::size(layout));
            assert_eq!(edge.len(), EdgeSettings::size(layout));
            assert_eq!(whole.len() % align, 0);
            assert_eq!(dither.len() % align, 0);
            assert_eq!(edge.len() % align, 0);
            assert_eq!(dither.len() % 16, 0);
        }
    }
}

#[test]
fn padded_layout_is_whole_rows() {
    let s = sample_settings();
    let layout = SettingsLayout::AlignmentPaddedLayout;
    assert_eq!(s.to_bytes(layout).len() % 16, 0);
    assert_eq!(s.edge.to_bytes(layout).len() % 16, 0);
    assert_eq!(s.dither.to_bytes(layout).len() % 16, 0);
}

#[test]
fn fields_lie_at_their_reference_offsets() {
    let s = sample_settings();
    for layout in LAYOUTS {
        let b = s.to_bytes(layout);
        assert_eq!(b[0..4], 0u32.to_le_bytes());
        assert_eq!(b[4..8], 1920.0f32.to_le_bytes());
        assert_eq!(b[8..12], 1080.0f32.to_le_bytes());
        assert_eq!(b[12..16], 0.0f32.to_le_bytes());
        assert_eq!(b[16..20], 1u32.to_le_bytes());
        assert_eq!(b[20..24], 1u32.to_le_bytes());
        assert_eq!(b[24..28], 0.25f32.to_le_bytes());
        assert_eq!(b[28..32], (-3i32).to_le_bytes());
        assert_eq!(b[32..36], 4.0f32.to_le_bytes());
        assert_eq!(b[36..48], [0u8; 12]);
        assert_eq!(b[48..52], 0u32.to_le_bytes());
        assert_eq!(b[52..56], 0.5f32.to_le_bytes());
        assert!(b[56..].iter().all(|x| *x == 0));
        assert_eq!(b[DITHER_OFFSET..DITHER_OFFSET + DITHER_SIZE], s.dither.to_bytes(layout)[..]);
        let edge = s.edge.to_bytes(layout);
        assert_eq!(b[EDGE_OFFSET..EDGE_OFFSET + edge.len()], edge[..]);
    }
}

#[test]
fn embedded_blocks_start_on_rows() {
    assert_eq!(DITHER_OFFSET % UNIFORM_ROW, 0);
    assert_eq!(EDGE_OFFSET % UNIFORM_ROW, 0);
    assert_eq!(DITHER_OFFSET + DITHER_SIZE, EDGE_OFFSET);
}

#[test]
fn negative_scale_is_twos_complement() {
    let mut d = DitherSettings::default();
    d.scale = -1;
    assert_eq!(d.to_bytes(SettingsLayout::StandardLayout)[12..16], [0xFF, 0xFF, 0xFF, 0xFF]);
    d.scale = i32::MIN;
    assert_eq!(d.to_bytes(SettingsLayout::StandardLayout)[12..16], [0x00, 0x00, 0x00, 0x80]);
    d.scale = i32::MAX;
    assert_eq!(d.to_bytes(SettingsLayout::StandardLayout)[12..16], [0xFF, 0xFF, 0xFF, 0x7F]);
}

#[test]
fn words_are_little_endian() {
    let mut e = EdgeSettings::default();
    e.is_enable = 0x0403_0201;
    e.edge_strength = Binary32::from_bits(0xFFFF_FFFF);
    assert_eq!(
        e.to_bytes(SettingsLayout::StandardLayout),
        vec![0x01, 0x02, 0x03, 0x04, 0xFF, 0xFF, 0xFF, 0xFF]
    );
}

#[test]
fn padding_fields_are_written_as_they_are() {
    let mut d = DitherSettings::default();
    d._pad_0 = Binary32::from_bits(0x1111_1111);
    d._pad_1 = Binary32::from_bits(0x2222_2222);
    d._pad_2 = Binary32::from_bits(0x3333_3333);
    let b = d.to_bytes(SettingsLayout::StandardLayout);
    assert_eq!(b[20..24], [0x11; 4]);
    assert_eq!(b[24..28], [0x22; 4]);
    assert_eq!(b[28..32], [0x33; 4]);
}

#[test]
fn default_serialization_is_the_same_each_time() {
    for layout in LAYOUTS {
        let first = PostProcessSettings::default().to_bytes(layout);
        let second = PostProcessSettings::default().to_bytes(layout);
        assert_eq!(first, second);
    }
    assert_eq!(PostProcessSettings::default(), PostProcessSettings::default());
}

#[test]
fn write_to_appends_to_what_is_there() {
    let s = sample_settings();
    for layout in LAYOUTS {
        let mut buf: Vec<u8> = vec![0xAA, 0xBB];
        s.write_to(layout, &mut buf);
        assert_eq!(buf[0..2], [0xAA, 0xBB]);
        assert_eq!(buf[2..], s.to_bytes(layout)[..]);
        let before = buf.len();
        s.dither.write_to(layout, &mut buf);
        s.edge.write_to(layout, &mut buf);
        assert_eq!(buf.len(), before + DitherSettings::size(layout) + EdgeSettings::size(layout));
    }
}

#[test]
fn layouts_differ_in_padding_only() {
    let s = sample_settings();
    let standard = s.to_bytes(SettingsLayout::StandardLayout);
    let padded = s.to_bytes(SettingsLayout::AlignmentPaddedLayout);
    assert_eq!(padded[..standard.len()], standard[..]);
    assert_eq!(padded.len() - standard.len(), 24);
}

#[test]
fn settings_that_differ_in_a_field_differ_in_bytes() {
    let base = sample_settings();
    let mut variants = vec![base; 15];
    variants[0].is_enable = 1;
    variants[1].screen_width = bits_of(1.0);
    variants[2].screen_height = bits_of(1.0);
    variants[3]._pad_0 = bits_of(1.0);
    variants[4].dither.is_enable = 0;
    variants[5].dither.is_monochrome = 0;
    variants[6].dither.intensity = bits_of(0.5);
    variants[7].dither.scale = 3;
    variants[8].dither.weight_scaling = bits_of(8.0);
    variants[9].dither._pad_0 = bits_of(1.0);
    variants[10].dither._pad_1 = bits_of(1.0);
    variants[11].dither._pad_2 = bits_of(1.0);
    variants[12].edge.is_enable = 1;
    variants[13].edge.edge_strength = bits_of(0.25);
    variants[14].dither.scale = i32::MIN;
    for layout in LAYOUTS {
        let image = base.to_bytes(layout);
        for (i, a) in variants.iter().enumerate() {
            assert_ne!(a.to_bytes(layout), image);
            for b in &variants[..i] {
                assert_ne!(a.to_bytes(layout), b.to_bytes(layout));
            }
        }
    }
}
