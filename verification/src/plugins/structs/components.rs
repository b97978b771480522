//! The settings block that the fragment shader reads as a uniform, and its
//! byte layout.
//!
//! The shader declares the same fields in the same order. A change here has
//! to be mirrored there, or the pass reads garbage.

use crate::consts::app::{
    DEFAULT_DITHER_ENABLE, DEFAULT_DITHER_INTENSITY, DEFAULT_DITHER_MONOCHROME,
    DEFAULT_DITHER_SCALE, DEFAULT_EDGE_ENABLE, DEFAULT_EDGE_STRENGTH,
    DEFAULT_POSTPROCESS_ENABLE, DEFAULT_WEIGHT_SCALE, GAME_HEIGHT, GAME_WIDTH,
};
use vstd::prelude::*;

verus! {

/// A single-precision real number, held as its IEEE 754 bit pattern.
///
/// The library never computes with the number: it stores it and writes its
/// four bytes into the uniform block.
#[derive(Clone, Copy, Debug, PartialEq, Eq, Structural)]
pub struct Binary32 {
    pub bits: u32,
}

impl Binary32 {
    /// The number with the given bit pattern.
    pub fn from_bits(bits: u32) -> (r: Self)
        ensures
            r.bits == bits,
    {
        Binary32 { bits }
    }

    /// The bit pattern of the number.
    pub fn to_bits(&self) -> (bits: u32)
        ensures
            bits == self.bits,
    {
        self.bits
    }

    /// Positive zero, the value of every padding field.
    pub fn zero() -> (r: Self)
        ensures
            r.bits == 0,
    {
        Binary32 { bits: 0 }
    }
}

/// Which of the two layouts of the uniform block is in use. It is chosen
/// once at startup from what the graphics backend demands.
#[derive(Clone, Copy, Debug, PartialEq, Eq, Structural)]
pub enum SettingsLayout {
    /// Fields are packed at their natural four-byte alignment.
    StandardLayout,
    /// For backends that want every uniform block to be a whole number of
    /// sixteen-byte rows: the edge block and the settings block carry
    /// trailing padding.
    AlignmentPaddedLayout,
}

/// Size of one scalar field in bytes.
pub const WORD_SIZE: usize = 4;

/// Granularity at which an embedded block must start inside a uniform block.
pub const UNIFORM_ROW: usize = 16;

/// Serialized size of [`DitherSettings`], in either layout.
pub const DITHER_SIZE: usize = 32;

/// Serialized size of [`EdgeSettings`] in the standard layout.
pub const STANDARD_EDGE_SIZE: usize = 8;

/// Serialized size of [`EdgeSettings`] in the padded layout.
pub const PADDED_EDGE_SIZE: usize = 16;

/// Serialized size of [`PostProcessSettings`] in the standard layout.
pub const STANDARD_SETTINGS_SIZE: usize = 56;

/// Serialized size of [`PostProcessSettings`] in the padded layout.
pub const PADDED_SETTINGS_SIZE: usize = 80;

/// Offset of the embedded dither block inside [`PostProcessSettings`].
pub const DITHER_OFFSET: usize = 16;

/// Offset of the embedded edge block inside [`PostProcessSettings`].
pub const EDGE_OFFSET: usize = 48;

/// The four bytes of a word, least significant first.
#[verifier::opaque]
pub open spec fn le_bytes(v: u32) -> Seq<u8> {
    seq![
        (v % 256) as u8,
        ((v / 256) % 256) as u8,
        ((v / 65536) % 256) as u8,
        ((v / 16777216) % 256) as u8,
    ]
}

/// The word that holds a signed integer in two's complement.
pub open spec fn twos_complement(v: i32) -> u32 {
    if v >= 0 {
        v as u32
    } else {
        (v + 0x1_0000_0000) as u32
    }
}

/// Every word has four bytes.
pub proof fn lemma_le_bytes_len()
    ensures
        forall|v: u32| #[trigger] le_bytes(v).len() == 4,
{
    reveal(le_bytes);
}

/// The bytes of a word, one by one: byte `k` holds the bits `8k` to
/// `8k + 7` of the word.
pub proof fn lemma_le_bytes_values(v: u32)
    ensures
        le_bytes(v).len() == 4,
        le_bytes(v)[0] == v % 256,
        le_bytes(v)[1] == (v / 256) % 256,
        le_bytes(v)[2] == (v / 65536) % 256,
        le_bytes(v)[3] == v / 16777216,
        v == le_bytes(v)[0] + 256 * le_bytes(v)[1] + 65536 * le_bytes(v)[2] + 16777216 * le_bytes(
            v,
        )[3],
{
    reveal(le_bytes);
}

/// `n` zero bytes.
pub open spec fn zero_bytes(n: nat) -> Seq<u8> {
    Seq::new(n, |i: int| 0u8)
}

/// The alignment that a serialized block must be a multiple of.
pub open spec fn spec_required_alignment(layout: SettingsLayout) -> nat {
    match layout {
        SettingsLayout::StandardLayout => 4,
        SettingsLayout::AlignmentPaddedLayout => 16,
    }
}

/// The alignment that a serialized block must be a multiple of: the size of
/// a scalar in the standard layout, a sixteen-byte row in the padded one.
pub fn required_alignment(layout: SettingsLayout) -> (a: usize)
    ensures
        a == spec_required_alignment(layout),
{
    match layout {
        SettingsLayout::StandardLayout => WORD_SIZE,
        SettingsLayout::AlignmentPaddedLayout => UNIFORM_ROW,
    }
}

fn to_word(v: i32) -> (w: u32)
    ensures
        w == twos_complement(v),
{
    if v >= 0 {
        v as u32
    } else {
        (v as i64 + 0x1_0000_0000i64) as u32
    }
}

fn push_word(buf: &mut Vec<u8>, v: u32)
    ensures
        final(buf)@ == old(buf)@ + le_bytes(v),
{
    buf.push((v % 256) as u8);
    buf.push(((v / 256) % 256) as u8);
    buf.push(((v / 65536) % 256) as u8);
    buf.push(((v / 16777216) % 256) as u8);
    proof {
        reveal(le_bytes);
    }
    assert(buf@ =~= old(buf)@ + le_bytes(v));
}

fn push_zeros(buf: &mut Vec<u8>, n: usize)
    ensures
        final(buf)@ == old(buf)@ + zero_bytes(n as nat),
{
    let mut i: usize = 0;
    while i < n
        invariant
            i <= n,
            buf@ == old(buf)@ + zero_bytes(i as nat),
        decreases n - i,
    {
        buf.push(0u8);
        i = i + 1;
        assert(buf@ =~= old(buf)@ + zero_bytes(i as nat));
    }
}

/// Parameters of the ordered dither.
#[derive(Clone, Copy, Debug, PartialEq, Eq, Structural)]
pub struct DitherSettings {
    /// Whether dithering is applied: 1 = on, 0 = off.
    pub is_enable: u32,
    /// Whether dithering is monochrome: 1 = on, 0 = off.
    pub is_monochrome: u32,
    /// Grayscale threshold bias.
    pub intensity: Binary32,
    /// Scale of a dither cell.
    pub scale: i32,
    /// Coefficient that selects the dither matrix per threshold.
    pub weight_scaling: Binary32,
    /// Padding: fills the block up to two sixteen-byte rows, so that the
    /// block that follows it starts on a row.
    pub _pad_0: Binary32,
    pub _pad_1: Binary32,
    pub _pad_2: Binary32,
}

impl DitherSettings {
    /// The documented defaults.
    pub open spec fn spec_default() -> Self {
        DitherSettings {
            is_enable: DEFAULT_DITHER_ENABLE,
            is_monochrome: DEFAULT_DITHER_MONOCHROME,
            intensity: Binary32 { bits: DEFAULT_DITHER_INTENSITY },
            scale: DEFAULT_DITHER_SCALE,
            weight_scaling: Binary32 { bits: DEFAULT_WEIGHT_SCALE },
            _pad_0: Binary32 { bits: 0 },
            _pad_1: Binary32 { bits: 0 },
            _pad_2: Binary32 { bits: 0 },
        }
    }

    /// Serialized size in bytes.
    pub open spec fn spec_size(layout: SettingsLayout) -> nat {
        DITHER_SIZE as nat
    }

    /// The serialized block: the eight fields in declaration order.
    pub open spec fn spec_bytes(self, layout: SettingsLayout) -> Seq<u8> {
        le_bytes(self.is_enable) + le_bytes(self.is_monochrome) + le_bytes(self.intensity.bits)
            + le_bytes(twos_complement(self.scale)) + le_bytes(self.weight_scaling.bits)
            + le_bytes(self._pad_0.bits) + le_bytes(self._pad_1.bits) + le_bytes(
            self._pad_2.bits,
        )
    }

    /// Whether `bytes` holds each field of `self` at its place in the
    /// reference layout, and nothing more.
    pub open spec fn matches_reference_layout(
        self,
        layout: SettingsLayout,
        bytes: Seq<u8>,
    ) -> bool {
        &&& bytes.len() == 32
        &&& bytes.subrange(0, 4) == le_bytes(self.is_enable)
        &&& bytes.subrange(4, 8) == le_bytes(self.is_monochrome)
        &&& bytes.subrange(8, 12) == le_bytes(self.intensity.bits)
        &&& bytes.subrange(12, 16) == le_bytes(twos_complement(self.scale))
        &&& bytes.subrange(16, 20) == le_bytes(self.weight_scaling.bits)
        &&& bytes.subrange(20, 24) == le_bytes(self._pad_0.bits)
        &&& bytes.subrange(24, 28) == le_bytes(self._pad_1.bits)
        &&& bytes.subrange(28, 32) == le_bytes(self._pad_2.bits)
    }

    /// The serialized block has the reference layout.
    pub proof fn lemma_reference_layout(self, layout: SettingsLayout)
        ensures
            self.matches_reference_layout(layout, self.spec_bytes(layout)),
            self.spec_bytes(layout).len() == Self::spec_size(layout),
    {
        lemma_le_bytes_len();
        let bytes = self.spec_bytes(layout);
        assert(bytes.len() == 32);
        assert(bytes.subrange(0, 4) =~= le_bytes(self.is_enable));
        assert(bytes.subrange(4, 8) =~= le_bytes(self.is_monochrome));
        assert(bytes.subrange(8, 12) =~= le_bytes(self.intensity.bits));
        assert(bytes.subrange(12, 16) =~= le_bytes(twos_complement(self.scale)));
        assert(bytes.subrange(16, 20) =~= le_bytes(self.weight_scaling.bits));
        assert(bytes.subrange(20, 24) =~= le_bytes(self._pad_0.bits));
        assert(bytes.subrange(24, 28) =~= le_bytes(self._pad_1.bits));
        assert(bytes.subrange(28, 32) =~= le_bytes(self._pad_2.bits));
    }

    /// Serialized size in bytes.
    pub fn size(layout: SettingsLayout) -> (n: usize)
        ensures
            n == Self::spec_size(layout),
    {
        DITHER_SIZE
    }

    /// Appends the serialized block to `buf`.
    pub fn write_to(&self, layout: SettingsLayout, buf: &mut Vec<u8>)
        ensures
            final(buf)@ == old(buf)@ + self.spec_bytes(layout),
    {
        push_word(buf, self.is_enable);
        push_word(buf, self.is_monochrome);
        push_word(buf, self.intensity.bits);
        push_word(buf, to_word(self.scale));
        push_word(buf, self.weight_scaling.bits);
        push_word(buf, self._pad_0.bits);
        push_word(buf, self._pad_1.bits);
        push_word(buf, self._pad_2.bits);
        proof {
            lemma_le_bytes_len();
        }
        assert(buf@ =~= old(buf)@ + self.spec_bytes(layout));
    }

    /// The serialized block.
    pub fn to_bytes(&self, layout: SettingsLayout) -> (bytes: Vec<u8>)
        ensures
            bytes@ == self.spec_bytes(layout),
            self.matches_reference_layout(layout, bytes@),
            bytes@.len() % spec_required_alignment(layout) == 0,
            bytes@.len() % 16 == 0,
    {
        let mut buf: Vec<u8> = Vec::new();
        self.write_to(layout, &mut buf);
        proof {
            self.lemma_reference_layout(layout);
            assert(buf@ =~= self.spec_bytes(layout));
        }
        buf
    }
}

impl Default for DitherSettings {
    /// Dithering on, in colour, with the configured intensity, scale and
    /// weighting.
    fn default() -> (r: Self)
        ensures
            r == DitherSettings::spec_default(),
    {
        DitherSettings {
            is_enable: DEFAULT_DITHER_ENABLE,
            is_monochrome: DEFAULT_DITHER_MONOCHROME,
            intensity: Binary32 { bits: DEFAULT_DITHER_INTENSITY },
            scale: DEFAULT_DITHER_SCALE,
            weight_scaling: Binary32 { bits: DEFAULT_WEIGHT_SCALE },
            _pad_0: Binary32 { bits: 0 },
            _pad_1: Binary32 { bits: 0 },
            _pad_2: Binary32 { bits: 0 },
        }
    }
}

/// Where the parts of a block lie that is made of four words, a block of
/// thirty-two bytes, a further block and trailing bytes.
proof fn lemma_block_parts(
    w0: Seq<u8>,
    w1: Seq<u8>,
    w2: Seq<u8>,
    w3: Seq<u8>,
    d: Seq<u8>,
    e: Seq<u8>,
    z: Seq<u8>,
)
    requires
        w0.len() == 4,
        w1.len() == 4,
        w2.len() == 4,
        w3.len() == 4,
        d.len() == 32,
    ensures
        ({
            let b = w0 + w1 + w2 + w3 + d + e + z;
            &&& b.len() == 48 + e.len() + z.len()
            &&& b.subrange(0, 4) == w0
            &&& b.subrange(4, 8) == w1
            &&& b.subrange(8, 12) == w2
            &&& b.subrange(12, 16) == w3
            &&& b.subrange(16, 48) == d
            &&& b.subrange(48, (48 + e.len()) as int) == e
            &&& forall|i: int| 48 + e.len() <= i < b.len() ==> b[i] == z[i - 48 - e.len()]
        }),
{
    let b = w0 + w1 + w2 + w3 + d + e + z;
    assert(b.subrange(0, 4) =~= w0);
    assert(b.subrange(4, 8) =~= w1);
    assert(b.subrange(8, 12) =~= w2);
    assert(b.subrange(12, 16) =~= w3);
    assert(b.subrange(16, 48) =~= d);
    assert(b.subrange(48, (48 + e.len()) as int) =~= e);
}

/// A settings block that is put together from its four leading words, an
/// image of its dither block, an image of its edge block and the padding of
/// the layout has the reference layout.
proof fn lemma_settings_parts(
    s: PostProcessSettings,
    layout: SettingsLayout,
    d: Seq<u8>,
    e: Seq<u8>,
)
    requires
        s.dither.matches_reference_layout(layout, d),
        s.edge.matches_reference_layout(layout, e),
    ensures
        ({
            let b = le_bytes(s.is_enable) + le_bytes(s.screen_width.bits) + le_bytes(
                s.screen_height.bits,
            ) + le_bytes(s._pad_0.bits) + d + e + zero_bytes(
                PostProcessSettings::spec_padding(layout),
            );
            s.matches_reference_layout(layout, b) && b.len() == PostProcessSettings::spec_size(
                layout,
            )
        }),
{
    lemma_le_bytes_len();
    let z = zero_bytes(PostProcessSettings::spec_padding(layout));
    let b = le_bytes(s.is_enable) + le_bytes(s.screen_width.bits) + le_bytes(
        s.screen_height.bits,
    ) + le_bytes(s._pad_0.bits) + d + e + z;
    lemma_block_parts(
        le_bytes(s.is_enable),
        le_bytes(s.screen_width.bits),
        le_bytes(s.screen_height.bits),
        le_bytes(s._pad_0.bits),
        d,
        e,
        z,
    );
    let edge_end = (48 + EdgeSettings::spec_size(layout)) as int;
    assert(edge_end == 48 + e.len());
    assert forall|i: int| edge_end <= i < b.len() implies b[i] == 0 by {
        assert(b[i] == z[i - 48 - e.len()]);
    }
}

/// Parameters of the edge detection.
///
/// In the padded layout the block is followed by eight zero bytes, which
/// bring it to a full sixteen-byte row.
#[derive(Clone, Copy, Debug, PartialEq, Eq, Structural)]
pub struct EdgeSettings {
    /// Whether edge detection is applied: 1 = on, 0 = off.
    pub is_enable: u32,
    /// Detection threshold.
    pub edge_strength: Binary32,
}

impl EdgeSettings {
    /// The documented defaults.
    pub open spec fn spec_default() -> Self {
        EdgeSettings {
            is_enable: DEFAULT_EDGE_ENABLE,
            edge_strength: Binary32 { bits: DEFAULT_EDGE_STRENGTH },
        }
    }

    /// Serialized size in bytes.
    pub open spec fn spec_size(layout: SettingsLayout) -> nat {
        match layout {
            SettingsLayout::StandardLayout => STANDARD_EDGE_SIZE as nat,
            SettingsLayout::AlignmentPaddedLayout => PADDED_EDGE_SIZE as nat,
        }
    }

    /// Number of padding bytes that follow the two fields.
    pub open spec fn spec_padding(layout: SettingsLayout) -> nat {
        match layout {
            SettingsLayout::StandardLayout => 0,
            SettingsLayout::AlignmentPaddedLayout => 8,
        }
    }

    /// The serialized block: the two fields in declaration order, then the
    /// padding of the layout.
    pub open spec fn spec_bytes(self, layout: SettingsLayout) -> Seq<u8> {
        le_bytes(self.is_enable) + le_bytes(self.edge_strength.bits) + zero_bytes(
            Self::spec_padding(layout),
        )
    }

    /// Whether `bytes` holds each field of `self` at its place in the
    /// reference layout, zeros in the padding, and nothing more.
    pub open spec fn matches_reference_layout(
        self,
        layout: SettingsLayout,
        bytes: Seq<u8>,
    ) -> bool {
        &&& bytes.len() == Self::spec_size(layout)
        &&& bytes.subrange(0, 4) == le_bytes(self.is_enable)
        &&& bytes.subrange(4, 8) == le_bytes(self.edge_strength.bits)
        &&& forall|i: int| 8 <= i < bytes.len() ==> bytes[i] == 0
    }

    /// The serialized block has the reference layout.
    pub proof fn lemma_reference_layout(self, layout: SettingsLayout)
        ensures
            self.matches_reference_layout(layout, self.spec_bytes(layout)),
            self.spec_bytes(layout).len() == Self::spec_size(layout),
    {
        lemma_le_bytes_len();
        let bytes = self.spec_bytes(layout);
        assert(bytes.subrange(0, 4) =~= le_bytes(self.is_enable));
        assert(bytes.subrange(4, 8) =~= le_bytes(self.edge_strength.bits));
    }

    /// Serialized size in bytes.
    pub fn size(layout: SettingsLayout) -> (n: usize)
        ensures
            n == Self::spec_size(layout),
    {
        match layout {
            SettingsLayout::StandardLayout => STANDARD_EDGE_SIZE,
            SettingsLayout::AlignmentPaddedLayout => PADDED_EDGE_SIZE,
        }
    }

    /// Appends the serialized block to `buf`.
    pub fn write_to(&self, layout: SettingsLayout, buf: &mut Vec<u8>)
        ensures
            final(buf)@ == old(buf)@ + self.spec_bytes(layout),
    {
        push_word(buf, self.is_enable);
        push_word(buf, self.edge_strength.bits);
        match layout {
            SettingsLayout::StandardLayout => {
                push_zeros(buf, 0);
            },
            SettingsLayout::AlignmentPaddedLayout => {
                push_zeros(buf, 8);
            },
        }
        proof {
            lemma_le_bytes_len();
        }
        assert(buf@ =~= old(buf)@ + self.spec_bytes(layout));
    }

    /// The serialized block.
    pub fn to_bytes(&self, layout: SettingsLayout) -> (bytes: Vec<u8>)
        ensures
            bytes@ == self.spec_bytes(layout),
            self.matches_reference_layout(layout, bytes@),
            bytes@.len() % spec_required_alignment(layout) == 0,
    {
        let mut buf: Vec<u8> = Vec::new();
        self.write_to(layout, &mut buf);
        proof {
            self.lemma_reference_layout(layout);
            assert(buf@ =~= self.spec_bytes(layout));
        }
        buf
    }
}

impl Default for EdgeSettings {
    /// Edge detection on, with the configured threshold.
    fn default() -> (r: Self)
        ensures
            r == EdgeSettings::spec_default(),
    {
        EdgeSettings {
            is_enable: DEFAULT_EDGE_ENABLE,
            edge_strength: Binary32 { bits: DEFAULT_EDGE_STRENGTH },
        }
    }
}

/// The settings of one camera, as the shader reads them.
///
/// One value per camera; each frame it is copied into the uniform buffer
/// that all cameras share, at that camera's dynamic offset.
#[derive(Clone, Copy, Debug, PartialEq, Eq, Structural)]
pub struct PostProcessSettings {
    /// Whether the pass is applied: 1 = on, 0 = off.
    pub is_enable: u32,
    /// Width of the render target.
    pub screen_width: Binary32,
    /// Height of the render target.
    pub screen_height: Binary32,
    /// Padding: completes the first sixteen-byte row.
    pub _pad_0: Binary32,
    pub dither: DitherSettings,
    pub edge: EdgeSettings,
}

impl PostProcessSettings {
    /// The documented defaults: the pass on, at the configured resolution,
    /// with the default dither and edge parameters.
    pub open spec fn spec_default() -> Self {
        PostProcessSettings {
            is_enable: DEFAULT_POSTPROCESS_ENABLE,
            screen_width: Binary32 { bits: GAME_WIDTH },
            screen_height: Binary32 { bits: GAME_HEIGHT },
            _pad_0: Binary32 { bits: 0 },
            dither: DitherSettings::spec_default(),
            edge: EdgeSettings::spec_default(),
        }
    }

    /// Serialized size in bytes.
    pub open spec fn spec_size(layout: SettingsLayout) -> nat {
        match layout {
            SettingsLayout::StandardLayout => STANDARD_SETTINGS_SIZE as nat,
            SettingsLayout::AlignmentPaddedLayout => PADDED_SETTINGS_SIZE as nat,
        }
    }

    /// Number of padding bytes that follow the edge block.
    pub open spec fn spec_padding(layout: SettingsLayout) -> nat {
        match layout {
            SettingsLayout::StandardLayout => 0,
            SettingsLayout::AlignmentPaddedLayout => 16,
        }
    }

    /// The serialized block: the four leading fields, the dither block, the
    /// edge block, then the padding of the layout.
    pub open spec fn spec_bytes(self, layout: SettingsLayout) -> Seq<u8> {
        le_bytes(self.is_enable) + le_bytes(self.screen_width.bits) + le_bytes(
            self.screen_height.bits,
        ) + le_bytes(self._pad_0.bits) + self.dither.spec_bytes(layout) + self.edge.spec_bytes(
            layout,
        ) + zero_bytes(Self::spec_padding(layout))
    }

    /// Whether `bytes` holds each field of `self` at its place in the
    /// reference layout, zeros in the trailing padding, and nothing more.
    pub open spec fn matches_reference_layout(
        self,
        layout: SettingsLayout,
        bytes: Seq<u8>,
    ) -> bool {
        let edge_end = (48 + EdgeSettings::spec_size(layout)) as int;
        &&& bytes.len() == Self::spec_size(layout)
        &&& bytes.subrange(0, 4) == le_bytes(self.is_enable)
        &&& bytes.subrange(4, 8) == le_bytes(self.screen_width.bits)
        &&& bytes.subrange(8, 12) == le_bytes(self.screen_height.bits)
        &&& bytes.subrange(12, 16) == le_bytes(self._pad_0.bits)
        &&& self.dither.matches_reference_layout(layout, bytes.subrange(16, 48))
        &&& self.edge.matches_reference_layout(layout, bytes.subrange(48, edge_end))
        &&& forall|i: int| edge_end <= i < bytes.len() ==> bytes[i] == 0
    }

    /// Whether the layout can be bound as a uniform block: each embedded
    /// block starts on a sixteen-byte row, the block after an embedded block
    /// starts no earlier than the rows of that block end, and the whole is a
    /// multiple of the alignment of the layout.
    pub open spec fn uniform_compatible(layout: SettingsLayout) -> bool {
        let dither_rows = (DitherSettings::spec_size(layout) + 15) / 16 * 16;
        let edge_rows = (EdgeSettings::spec_size(layout) + 15) / 16 * 16;
        &&& DITHER_OFFSET % 16 == 0
        &&& EDGE_OFFSET % 16 == 0
        &&& EDGE_OFFSET - DITHER_OFFSET >= dither_rows
        &&& Self::spec_padding(layout) > 0 ==> EDGE_OFFSET + edge_rows + Self::spec_padding(layout)
            == Self::spec_size(layout)
        &&& Self::spec_size(layout) % spec_required_alignment(layout) == 0
    }

    /// The serialized block has the reference layout, and the layout can be
    /// bound as a uniform block.
    pub proof fn lemma_reference_layout(self, layout: SettingsLayout)
        ensures
            self.matches_reference_layout(layout, self.spec_bytes(layout)),
            self.spec_bytes(layout).len() == Self::spec_size(layout),
            Self::uniform_compatible(layout),
    {
        self.dither.lemma_reference_layout(layout);
        self.edge.lemma_reference_layout(layout);
        lemma_settings_parts(
            self,
            layout,
            self.dither.spec_bytes(layout),
            self.edge.spec_bytes(layout),
        );
    }

    /// Serialized size in bytes: the least size of a buffer binding that
    /// holds one block.
    pub fn size(layout: SettingsLayout) -> (n: usize)
        ensures
            n == Self::spec_size(layout),
    {
        match layout {
            SettingsLayout::StandardLayout => STANDARD_SETTINGS_SIZE,
            SettingsLayout::AlignmentPaddedLayout => PADDED_SETTINGS_SIZE,
        }
    }

    /// Appends the serialized block to `buf`.
    pub fn write_to(&self, layout: SettingsLayout, buf: &mut Vec<u8>)
        ensures
            final(buf)@ == old(buf)@ + self.spec_bytes(layout),
    {
        push_word(buf, self.is_enable);
        push_word(buf, self.screen_width.bits);
        push_word(buf, self.screen_height.bits);
        push_word(buf, self._pad_0.bits);
        self.dither.write_to(layout, buf);
        self.edge.write_to(layout, buf);
        match layout {
            SettingsLayout::StandardLayout => {
                push_zeros(buf, 0);
            },
            SettingsLayout::AlignmentPaddedLayout => {
                push_zeros(buf, 16);
            },
        }
        proof {
            lemma_le_bytes_len();
        }
        assert(buf@ =~= old(buf)@ + self.spec_bytes(layout));
    }

    /// The serialized block, as it is copied into the uniform buffer.
    pub fn to_bytes(&self, layout: SettingsLayout) -> (bytes: Vec<u8>)
        ensures
            bytes@ == self.spec_bytes(layout),
            self.matches_reference_layout(layout, bytes@),
            bytes@.len() % spec_required_alignment(layout) == 0,
    {
        let mut buf: Vec<u8> = Vec::new();
        self.write_to(layout, &mut buf);
        proof {
            self.lemma_reference_layout(layout);
            assert(buf@ =~= self.spec_bytes(layout));
        }
        buf
    }
}

impl Default for PostProcessSettings {
    /// The pass on, at the configured resolution, with the default dither
    /// and edge parameters.
    fn default() -> (r: Self)
        ensures
            r == PostProcessSettings::spec_default(),
    {
        PostProcessSettings {
            is_enable: DEFAULT_POSTPROCESS_ENABLE,
            screen_width: Binary32 { bits: GAME_WIDTH },
            screen_height: Binary32 { bits: GAME_HEIGHT },
            _pad_0: Binary32 { bits: 0 },
            dither: DitherSettings::default(),
            edge: EdgeSettings::default(),
        }
    }
}

/// Serialized settings are a function of the field values and the layout:
/// two settings values with equal fields, such as two freshly built
/// defaults, serialize to identical bytes.
pub proof fn lemma_equal_settings_equal_bytes(
    a: PostProcessSettings,
    b: PostProcessSettings,
    layout: SettingsLayout,
)
    requires
        a == b,
    ensures
        a.spec_bytes(layout) == b.spec_bytes(layout),
{
}

/// A word is determined by its four bytes.
pub proof fn lemma_le_bytes_injective(a: u32, b: u32)
    requires
        le_bytes(a) == le_bytes(b),
    ensures
        a == b,
{
    lemma_le_bytes_values(a);
    lemma_le_bytes_values(b);
}

/// A signed integer is determined by its two's complement word.
pub proof fn lemma_twos_complement_injective(a: i32, b: i32)
    requires
        twos_complement(a) == twos_complement(b),
    ensures
        a == b,
{
}

/// The bytes at the reference offsets determine every field: two settings
/// values that both match the same block are equal. So whoever reads the
/// block by the reference layout, as the shader does, reads the values that
/// were written, and no two settings serialize to the same bytes.
pub proof fn lemma_layout_determines_settings(
    a: PostProcessSettings,
    b: PostProcessSettings,
    layout: SettingsLayout,
    bytes: Seq<u8>,
)
    requires
        a.matches_reference_layout(layout, bytes),
        b.matches_reference_layout(layout, bytes),
    ensures
        a == b,
{
    let d = bytes.subrange(16, 48);
    let e = bytes.subrange(48, (48 + EdgeSettings::spec_size(layout)) as int);
    lemma_le_bytes_injective(a.is_enable, b.is_enable);
    lemma_le_bytes_injective(a.screen_width.bits, b.screen_width.bits);
    lemma_le_bytes_injective(a.screen_height.bits, b.screen_height.bits);
    lemma_le_bytes_injective(a._pad_0.bits, b._pad_0.bits);
    lemma_le_bytes_injective(a.dither.is_enable, b.dither.is_enable);
    lemma_le_bytes_injective(a.dither.is_monochrome, b.dither.is_monochrome);
    lemma_le_bytes_injective(a.dither.intensity.bits, b.dither.intensity.bits);
    lemma_le_bytes_injective(twos_complement(a.dither.scale), twos_complement(b.dither.scale));
    lemma_twos_complement_injective(a.dither.scale, b.dither.scale);
    lemma_le_bytes_injective(a.dither.weight_scaling.bits, b.dither.weight_scaling.bits);
    lemma_le_bytes_injective(a.dither._pad_0.bits, b.dither._pad_0.bits);
    lemma_le_bytes_injective(a.dither._pad_1.bits, b.dither._pad_1.bits);
    lemma_le_bytes_injective(a.dither._pad_2.bits, b.dither._pad_2.bits);
    lemma_le_bytes_injective(a.edge.is_enable, b.edge.is_enable);
    lemma_le_bytes_injective(a.edge.edge_strength.bits, b.edge.edge_strength.bits);
    assert(a.dither == b.dither);
    assert(a.edge == b.edge);
}

/// Settings that serialize to the same bytes are equal.
pub proof fn lemma_equal_bytes_equal_settings(
    a: PostProcessSettings,
    b: PostProcessSettings,
    layout: SettingsLayout,
)
    requires
        a.spec_bytes(layout) == b.spec_bytes(layout),
    ensures
        a == b,
{
    a.lemma_reference_layout(layout);
    b.lemma_reference_layout(layout);
    lemma_layout_determines_settings(a, b, layout, a.spec_bytes(layout));
}

/// In the padded layout every serialized block is a whole number of
/// sixteen-byte rows; the dither block is so in the standard layout too.
pub proof fn lemma_row_multiples(layout: SettingsLayout)
    ensures
        DitherSettings::spec_size(layout) % 16 == 0,
        layout == SettingsLayout::AlignmentPaddedLayout ==> EdgeSettings::spec_size(layout) % 16
            == 0 && PostProcessSettings::spec_size(layout) % 16 == 0,
{
}

} // verus!
