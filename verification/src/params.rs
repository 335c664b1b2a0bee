//! The atmosphere parameter snapshot and its binding contract.
//!
//! Host and device share one uniform block whose field order is fixed.  Every
//! field is a 32-bit IEEE-754 value; the host side never interprets the
//! numbers, it only lays them out, so each scalar is carried here as its raw
//! bit pattern (`u32`).  The wire form is the sequence of those words in field
//! order, serialised little-endian.

use vstd::prelude::*;

verus! {

/// Number of 32-bit words in one parameter snapshot.
pub const PARAM_WORDS: usize = 19;

/// Number of bytes in the little-endian wire form of one snapshot.
pub const PARAM_BYTES: usize = 76;

/// Bit pattern of the 32-bit float `1.0`.
pub const F32_BITS_ONE: u32 = 0x3F80_0000;

/// Bit pattern of the 32-bit float `0.0`.
pub const F32_BITS_ZERO: u32 = 0;

/// Bit pattern of the 32-bit float `-0.0`, the other encoding of zero.
pub const F32_BITS_NEG_ZERO: u32 = 0x8000_0000;

/// A three-component vector of 32-bit float bit patterns.
#[derive(Clone, Copy, Debug, PartialEq, Eq, Structural)]
pub struct Vec3Bits {
    pub x: u32,
    pub y: u32,
    pub z: u32,
}

/// One per-frame snapshot of the atmosphere controls.
///
/// The field order is part of the wire contract with the device kernels and
/// must not be rearranged.
#[derive(Clone, Copy, Debug, PartialEq, Eq, Structural)]
pub struct AtmosphereParameters {
    pub sun_position: Vec3Bits,
    pub eye_position: Vec3Bits,
    pub sun_intensity: u32,
    pub rayleigh_scattering: Vec3Bits,
    pub mie_scattering: Vec3Bits,
    pub mie_g: u32,
    pub atmosphere_height: u32,
    pub cloud_coverage: u32,
    pub enable_clouds: u32,
    pub exposure: u32,
    pub multiple_scattering_factor: u32,
}

/// True of a word that decodes to floating zero, under either sign.
pub open spec fn is_zero_bits(w: u32) -> bool {
    w == F32_BITS_ZERO || w == F32_BITS_NEG_ZERO
}

impl AtmosphereParameters {
    /// The snapshot as the word sequence of the binding contract.
    pub open spec fn words(self) -> Seq<u32> {
        seq![
            self.sun_position.x,
            self.sun_position.y,
            self.sun_position.z,
            self.eye_position.x,
            self.eye_position.y,
            self.eye_position.z,
            self.sun_intensity,
            self.rayleigh_scattering.x,
            self.rayleigh_scattering.y,
            self.rayleigh_scattering.z,
            self.mie_scattering.x,
            self.mie_scattering.y,
            self.mie_scattering.z,
            self.mie_g,
            self.atmosphere_height,
            self.cloud_coverage,
            self.enable_clouds,
            self.exposure,
            self.multiple_scattering_factor,
        ]
    }

    /// Rebuilds a snapshot from a word sequence (the inverse of `words`).
    pub open spec fn of_words(s: Seq<u32>) -> AtmosphereParameters {
        AtmosphereParameters {
            sun_position: Vec3Bits { x: s[0], y: s[1], z: s[2] },
            eye_position: Vec3Bits { x: s[3], y: s[4], z: s[5] },
            sun_intensity: s[6],
            rayleigh_scattering: Vec3Bits { x: s[7], y: s[8], z: s[9] },
            mie_scattering: Vec3Bits { x: s[10], y: s[11], z: s[12] },
            mie_g: s[13],
            atmosphere_height: s[14],
            cloud_coverage: s[15],
            enable_clouds: s[16],
            exposure: s[17],
            multiple_scattering_factor: s[18],
        }
    }

    /// Default controls: sun low over the horizon at sunset, eye 200 m above
    /// ground, direct-sunlight illuminance, standard scattering coefficients.
    pub open spec fn default_spec() -> AtmosphereParameters {
        AtmosphereParameters {
            // (0.0, 0.25, 0.97)
            sun_position: Vec3Bits { x: 0x0000_0000, y: 0x3E80_0000, z: 0x3F78_51EC },
            // (0.0, 0.2, 0.0)
            eye_position: Vec3Bits { x: 0x0000_0000, y: 0x3E4C_CCCD, z: 0x0000_0000 },
            // 100000.0 lux
            sun_intensity: 0x47C3_5000,
            // (5.802, 13.558, 33.1)
            rayleigh_scattering: Vec3Bits { x: 0x40B9_A9FC, y: 0x4158_ED91, z: 0x4204_6666 },
            // (3.996, 3.996, 3.996)
            mie_scattering: Vec3Bits { x: 0x407F_BE77, y: 0x407F_BE77, z: 0x407F_BE77 },
            // 0.8
            mie_g: 0x3F4C_CCCD,
            // 100000.0
            atmosphere_height: 0x47C3_5000,
            // 0.5
            cloud_coverage: 0x3F00_0000,
            // clouds off
            enable_clouds: F32_BITS_ZERO,
            // 1.0
            exposure: F32_BITS_ONE,
            // 1.0
            multiple_scattering_factor: F32_BITS_ONE,
        }
    }

    /// Writes the multiple-scattering toggle, as the UI collaborator does:
    /// on becomes `1.0`, off becomes `0.0`; every other field is kept.
    pub fn set_multiple_scattering(&mut self, enabled: bool)
        ensures
            *final(self) == (AtmosphereParameters {
                multiple_scattering_factor: if enabled { F32_BITS_ONE } else { F32_BITS_ZERO },
                ..*old(self)
            }),
    {
        self.multiple_scattering_factor = if enabled { F32_BITS_ONE } else { F32_BITS_ZERO };
    }

    /// True when the multiple-scattering contribution is switched on.
    pub open spec fn multiple_scattering_enabled(self) -> bool {
        !is_zero_bits(self.multiple_scattering_factor)
    }
}

/// The four little-endian bytes of one 32-bit word.
pub open spec fn word_le_bytes(w: u32) -> Seq<u8> {
    seq![
        (w & 0xff) as u8,
        ((w >> 8) & 0xff) as u8,
        ((w >> 16) & 0xff) as u8,
        ((w >> 24) & 0xff) as u8,
    ]
}

/// The 32-bit word read from four little-endian bytes.
pub open spec fn word_of_le_bytes(b0: u8, b1: u8, b2: u8, b3: u8) -> u32 {
    (b0 as u32) | ((b1 as u32) << 8) | ((b2 as u32) << 16) | ((b3 as u32) << 24)
}

/// A word sequence flattened to its little-endian byte stream.
pub open spec fn words_to_bytes(s: Seq<u32>) -> Seq<u8>
    decreases s.len(),
{
    if s.len() == 0 {
        Seq::empty()
    } else {
        word_le_bytes(s[0]) + words_to_bytes(s.drop_first())
    }
}

/// The `i`-th word of a byte stream, read little-endian.
pub open spec fn word_at(b: Seq<u8>, i: int) -> u32 {
    word_of_le_bytes(b[4 * i], b[4 * i + 1], b[4 * i + 2], b[4 * i + 3])
}

pub proof fn lemma_words_to_bytes_len(s: Seq<u32>)
    ensures
        words_to_bytes(s).len() == 4 * s.len(),
    decreases s.len(),
{
    if s.len() != 0 {
        lemma_words_to_bytes_len(s.drop_first());
    }
}

/// Flattening places word `i` at byte offset `4 * i`.
pub proof fn lemma_words_to_bytes_index(s: Seq<u32>, i: int, j: int)
    requires
        0 <= i < s.len(),
        0 <= j < 4,
    ensures
        words_to_bytes(s).len() == 4 * s.len(),
        words_to_bytes(s)[4 * i + j] == word_le_bytes(s[i])[j],
    decreases i,
{
    lemma_words_to_bytes_len(s);
    lemma_words_to_bytes_len(s.drop_first());
    if i > 0 {
        lemma_words_to_bytes_index(s.drop_first(), i - 1, j);
        assert(s.drop_first()[i - 1] == s[i]);
        assert(words_to_bytes(s)[4 * i + j] == words_to_bytes(s.drop_first())[4 * (i - 1) + j]);
    }
}

/// Appending one word appends its four bytes.
pub proof fn lemma_words_to_bytes_push(s: Seq<u32>, w: u32)
    ensures
        words_to_bytes(s.push(w)) == words_to_bytes(s) + word_le_bytes(w),
    decreases s.len(),
{
    reveal_with_fuel(words_to_bytes, 3);
    if s.len() == 0 {
        assert(s.push(w)[0] == w);
        assert(s.push(w).drop_first() =~= Seq::<u32>::empty());
        assert(words_to_bytes(s.push(w)) =~= words_to_bytes(s) + word_le_bytes(w));
    } else {
        assert(s.push(w)[0] == s[0]);
        assert(s.push(w).drop_first() =~= s.drop_first().push(w));
        lemma_words_to_bytes_push(s.drop_first(), w);
        assert(words_to_bytes(s.push(w)) == word_le_bytes(s[0]) + (words_to_bytes(s.drop_first())
            + word_le_bytes(w)));
        assert(words_to_bytes(s.push(w)) =~= words_to_bytes(s) + word_le_bytes(w));
    }
}

/// Splitting a word into bytes and reassembling them gives the word back.
proof fn lemma_word_split_join(w: u32)
    by (bit_vector)
    ensures
        (((w & 0xff) as u8) as u32) | ((((w >> 8) & 0xff) as u8) as u32) << 8 | ((((w >> 16)
            & 0xff) as u8) as u32) << 16 | ((((w >> 24) & 0xff) as u8) as u32) << 24 == w,
{
}

/// Reading bytes into a word and splitting it again gives the bytes back.
proof fn lemma_word_join_split(b0: u8, b1: u8, b2: u8, b3: u8)
    by (bit_vector)
    ensures
        ((((b0 as u32) | ((b1 as u32) << 8) | ((b2 as u32) << 16) | ((b3 as u32) << 24)) & 0xff)
            as u8) == b0,
        (((((b0 as u32) | ((b1 as u32) << 8) | ((b2 as u32) << 16) | ((b3 as u32) << 24)) >> 8)
            & 0xff) as u8) == b1,
        (((((b0 as u32) | ((b1 as u32) << 8) | ((b2 as u32) << 16) | ((b3 as u32) << 24)) >> 16)
            & 0xff) as u8) == b2,
        (((((b0 as u32) | ((b1 as u32) << 8) | ((b2 as u32) << 16) | ((b3 as u32) << 24)) >> 24)
            & 0xff) as u8) == b3,
{
}

/// A word survives the trip through its little-endian bytes.
pub proof fn lemma_word_round_trip(w: u32)
    ensures
        word_of_le_bytes(
            word_le_bytes(w)[0],
            word_le_bytes(w)[1],
            word_le_bytes(w)[2],
            word_le_bytes(w)[3],
        ) == w,
{
    lemma_word_split_join(w);
}

/// Four bytes survive the trip through the word they spell.
pub proof fn lemma_bytes_round_trip(b0: u8, b1: u8, b2: u8, b3: u8)
    ensures
        word_le_bytes(word_of_le_bytes(b0, b1, b2, b3)) == seq![b0, b1, b2, b3],
{
    lemma_word_join_split(b0, b1, b2, b3);
    assert(word_le_bytes(word_of_le_bytes(b0, b1, b2, b3)) =~= seq![b0, b1, b2, b3]);
}

impl AtmosphereParameters {
    /// The little-endian wire form of the snapshot.
    pub open spec fn encoded(self) -> Seq<u8> {
        words_to_bytes(self.words())
    }

    /// The snapshot read back from a wire form; streams of the wrong length
    /// carry no snapshot.
    pub open spec fn decoded(b: Seq<u8>) -> Option<AtmosphereParameters> {
        if b.len() == PARAM_BYTES {
            Some(Self::of_words(Seq::new(PARAM_WORDS as nat, |i: int| word_at(b, i))))
        } else {
            None
        }
    }

    /// A snapshot written through the binding contract and read back returns
    /// identical field values.
    pub proof fn lemma_round_trip(p: AtmosphereParameters)
        ensures
            Self::decoded(p.encoded()) == Some(p),
    {
        lemma_words_to_bytes_len(p.words());
        let ws = Seq::new(PARAM_WORDS as nat, |i: int| word_at(p.encoded(), i));
        assert forall|i: int| 0 <= i < PARAM_WORDS implies ws[i] == p.words()[i] by {
            lemma_words_to_bytes_index(p.words(), i, 0);
            lemma_words_to_bytes_index(p.words(), i, 1);
            lemma_words_to_bytes_index(p.words(), i, 2);
            lemma_words_to_bytes_index(p.words(), i, 3);
            lemma_word_round_trip(p.words()[i]);
        }
        assert(ws =~= p.words());
        assert(Self::of_words(p.words()) == p);
    }

    /// A well-formed wire stream re-encodes to itself: decoding loses nothing.
    pub proof fn lemma_decode_encode(b: Seq<u8>)
        requires
            b.len() == PARAM_BYTES,
        ensures
            Self::decoded(b) matches Some(p) && p.encoded() == b,
    {
        let ws = Seq::new(PARAM_WORDS as nat, |i: int| word_at(b, i));
        let p = Self::of_words(ws);
        assert(p.words() =~= ws);
        lemma_words_to_bytes_len(ws);
        assert forall|k: int| 0 <= k < 4 * PARAM_WORDS implies words_to_bytes(ws)[k] == b[k] by {
            let i = k / 4;
            let j = k % 4;
            assert(k == 4 * i + j);
            lemma_words_to_bytes_index(ws, i, j);
            lemma_bytes_round_trip(b[4 * i], b[4 * i + 1], b[4 * i + 2], b[4 * i + 3]);
        }
        assert(p.encoded() =~= b);
    }

    fn to_words(&self) -> (ws: Vec<u32>)
        ensures
            ws@ == self.words(),
    {
        let mut ws: Vec<u32> = Vec::new();
        ws.push(self.sun_position.x);
        ws.push(self.sun_position.y);
        ws.push(self.sun_position.z);
        ws.push(self.eye_position.x);
        ws.push(self.eye_position.y);
        ws.push(self.eye_position.z);
        ws.push(self.sun_intensity);
        ws.push(self.rayleigh_scattering.x);
        ws.push(self.rayleigh_scattering.y);
        ws.push(self.rayleigh_scattering.z);
        ws.push(self.mie_scattering.x);
        ws.push(self.mie_scattering.y);
        ws.push(self.mie_scattering.z);
        ws.push(self.mie_g);
        ws.push(self.atmosphere_height);
        ws.push(self.cloud_coverage);
        ws.push(self.enable_clouds);
        ws.push(self.exposure);
        ws.push(self.multiple_scattering_factor);
        proof {
            assert(ws@ =~= self.words());
        }
        ws
    }

    /// Serialises the snapshot into its little-endian wire form.
    pub fn encode(&self) -> (out: Vec<u8>)
        ensures
            out@ == self.encoded(),
            out@.len() == PARAM_BYTES,
    {
        let ws = self.to_words();
        let mut out: Vec<u8> = Vec::new();
        let mut i: usize = 0;
        while i < ws.len()
            invariant
                ws@ == self.words(),
                i <= ws@.len(),
                out@ == words_to_bytes(ws@.subrange(0, i as int)),
            decreases ws@.len() - i,
        {
            push_word_le(&mut out, ws[i]);
            proof {
                lemma_words_to_bytes_push(ws@.subrange(0, i as int), ws@[i as int]);
                assert(ws@.subrange(0, i + 1) =~= ws@.subrange(0, i as int).push(ws@[i as int]));
            }
            i = i + 1;
        }
        proof {
            assert(ws@.subrange(0, ws@.len() as int) =~= ws@);
            lemma_words_to_bytes_len(ws@);
        }
        out
    }

    /// Reads a snapshot back from its wire form; a stream of any other length
    /// is rejected.
    pub fn decode(bytes: &Vec<u8>) -> (r: Option<AtmosphereParameters>)
        ensures
            r == Self::decoded(bytes@),
    {
        if bytes.len() != PARAM_BYTES {
            return None;
        }
        let p = AtmosphereParameters {
            sun_position: Vec3Bits {
                x: read_word_le(bytes, 0),
                y: read_word_le(bytes, 1),
                z: read_word_le(bytes, 2),
            },
            eye_position: Vec3Bits {
                x: read_word_le(bytes, 3),
                y: read_word_le(bytes, 4),
                z: read_word_le(bytes, 5),
            },
            sun_intensity: read_word_le(bytes, 6),
            rayleigh_scattering: Vec3Bits {
                x: read_word_le(bytes, 7),
                y: read_word_le(bytes, 8),
                z: read_word_le(bytes, 9),
            },
            mie_scattering: Vec3Bits {
                x: read_word_le(bytes, 10),
                y: read_word_le(bytes, 11),
                z: read_word_le(bytes, 12),
            },
            mie_g: read_word_le(bytes, 13),
            atmosphere_height: read_word_le(bytes, 14),
            cloud_coverage: read_word_le(bytes, 15),
            enable_clouds: read_word_le(bytes, 16),
            exposure: read_word_le(bytes, 17),
            multiple_scattering_factor: read_word_le(bytes, 18),
        };
        proof {
            let ws = Seq::new(PARAM_WORDS as nat, |i: int| word_at(bytes@, i));
            assert(p == Self::of_words(ws));
        }
        Some(p)
    }
}

/// Appends the four little-endian bytes of `w`.
fn push_word_le(out: &mut Vec<u8>, w: u32)
    ensures
        final(out)@ == old(out)@ + word_le_bytes(w),
{
    out.push((w & 0xff) as u8);
    out.push(((w >> 8) & 0xff) as u8);
    out.push(((w >> 16) & 0xff) as u8);
    out.push(((w >> 24) & 0xff) as u8);
    proof {
        assert(out@ =~= old(out)@ + word_le_bytes(w));
    }
}

/// Reads the `i`-th little-endian word of a byte stream.
fn read_word_le(b: &Vec<u8>, i: usize) -> (w: u32)
    requires
        i < PARAM_WORDS,
        4 * i + 4 <= b@.len(),
    ensures
        w == word_at(b@, i as int),
{
    let b0 = b[4 * i];
    let b1 = b[4 * i + 1];
    let b2 = b[4 * i + 2];
    let b3 = b[4 * i + 3];
    (b0 as u32) | ((b1 as u32) << 8) | ((b2 as u32) << 16) | ((b3 as u32) << 24)
}

impl Default for AtmosphereParameters {
    /// The default snapshot, exactly `default_spec`.
    fn default() -> (d: Self)
        ensures
            d == Self::default_spec(),
    {
        AtmosphereParameters {
            sun_position: Vec3Bits { x: 0x0000_0000, y: 0x3E80_0000, z: 0x3F78_51EC },
            eye_position: Vec3Bits { x: 0x0000_0000, y: 0x3E4C_CCCD, z: 0x0000_0000 },
            sun_intensity: 0x47C3_5000,
            rayleigh_scattering: Vec3Bits { x: 0x40B9_A9FC, y: 0x4158_ED91, z: 0x4204_6666 },
            mie_scattering: Vec3Bits { x: 0x407F_BE77, y: 0x407F_BE77, z: 0x407F_BE77 },
            mie_g: 0x3F4C_CCCD,
            atmosphere_height: 0x47C3_5000,
            cloud_coverage: 0x3F00_0000,
            enable_clouds: F32_BITS_ZERO,
            exposure: F32_BITS_ONE,
            multiple_scattering_factor: F32_BITS_ONE,
        }
    }
}

} // verus!
