//! Decoding of signed little-endian integer PCM.

use vstd::prelude::*;

verus! {

/// Bytes of one sample of the given bit depth, where it is supported.
pub open spec fn sample_width(bit_depth: u8) -> Option<nat> {
    if bit_depth == 16 {
        Some(2)
    } else if bit_depth == 24 {
        Some(3)
    } else if bit_depth == 32 {
        Some(4)
    } else {
        None
    }
}

/// The magnitude that stands for full scale at the given bit depth.
pub open spec fn full_scale_of(bit_depth: u8) -> int {
    if bit_depth == 16 {
        32_768
    } else if bit_depth == 24 {
        8_388_608
    } else {
        2_147_483_648
    }
}

/// The number written in `bytes`, least significant byte first.
pub open spec fn le_unsigned(bytes: Seq<u8>) -> int
    decreases bytes.len(),
{
    if bytes.len() == 0 {
        0
    } else {
        bytes[0] + 256 * le_unsigned(bytes.drop_first())
    }
}

/// The number written in `bytes` in two's complement, least significant byte first,
/// where `half` is the weight of the sign bit.
pub open spec fn le_signed(bytes: Seq<u8>, half: int) -> int {
    let value = le_unsigned(bytes);
    if value < half {
        value
    } else {
        value - 2 * half
    }
}

/// Whether `n` is a multiple of `m`; only zero is one of zero.
pub open spec fn is_multiple(n: nat, m: nat) -> bool {
    if m == 0 {
        n == 0
    } else {
        n % m == 0
    }
}

/// The samples in `data`, or `None` where the bit depth is not supported, or where
/// the bytes do not make up whole samples, or the samples whole frames.
pub open spec fn pcm_samples(data: Seq<u8>, channels: nat, bit_depth: u8) -> Option<Seq<i32>> {
    match sample_width(bit_depth) {
        None => None,
        Some(width) => if data.len() % width != 0 || !is_multiple(data.len() / width, channels) {
            None
        } else {
            Some(
                Seq::new(
                    data.len() / width,
                    |i: int|
                        le_signed(
                            data.subrange(i * width, i * width + width),
                            full_scale_of(bit_depth),
                        ) as i32,
                ),
            )
        },
    }
}

/// Decoded samples. A sample's amplitude is its value divided by the full scale.
#[derive(Debug)]
pub struct PcmSamples {
    pub full_scale: u32,
    pub values: Vec<i32>,
}

/// A number of so many bytes lies below the corresponding power of 256.
proof fn lemma_le_unsigned_bound(bytes: Seq<u8>)
    ensures
        0 <= le_unsigned(bytes),
        bytes.len() == 0 ==> le_unsigned(bytes) == 0,
        bytes.len() == 1 ==> le_unsigned(bytes) < 0x100,
        bytes.len() == 2 ==> le_unsigned(bytes) < 0x1_0000,
        bytes.len() == 3 ==> le_unsigned(bytes) < 0x100_0000,
        bytes.len() == 4 ==> le_unsigned(bytes) < 0x1_0000_0000,
    decreases bytes.len(),
{
    if bytes.len() > 0 {
        lemma_le_unsigned_bound(bytes.drop_first());
    }
}

/// A decoded sample is the number that its bytes hold, and lies within the full
/// scale.
pub proof fn lemma_sample_fits(data: Seq<u8>, channels: nat, bit_depth: u8, index: int)
    requires
        pcm_samples(data, channels, bit_depth) matches Some(samples) && 0 <= index < samples.len(),
    ensures
        ({
            let sample = pcm_samples(data, channels, bit_depth)->0[index];
            let width = sample_width(bit_depth)->0;
            let full_scale = full_scale_of(bit_depth);
            &&& sample == le_signed(
                data.subrange(index * width, index * width + width),
                full_scale,
            )
            &&& -full_scale <= sample < full_scale
        }),
{
    let width = sample_width(bit_depth)->0;
    assert(0 <= index * width && index * width + width <= data.len()) by (nonlinear_arith)
        requires
            0 <= index < data.len() / width,
            width > 0,
    ;
    lemma_le_unsigned_bound(data.subrange(index * width, index * width + width));
}

proof fn lemma_le_unsigned_injective(a: Seq<u8>, b: Seq<u8>)
    requires
        a.len() == b.len(),
        le_unsigned(a) == le_unsigned(b),
    ensures
        a == b,
    decreases a.len(),
{
    if a.len() > 0 {
        assert(a[0] == b[0]);
        lemma_le_unsigned_injective(a.drop_first(), b.drop_first());
        assert forall|i: int| 0 <= i < a.len() implies a[i] == b[i] by {
            if i > 0 {
                assert(a.drop_first()[i - 1] == b.drop_first()[i - 1]);
            }
        }
    }
    assert(a =~= b);
}

/// Decoding loses nothing: different bytes are different samples.
pub proof fn law_decoding_is_lossless(a: Seq<u8>, b: Seq<u8>, bit_depth: u8)
    requires
        sample_width(bit_depth) == Some(a.len()),
        a.len() == b.len(),
        le_signed(a, full_scale_of(bit_depth)) == le_signed(b, full_scale_of(bit_depth)),
    ensures
        a == b,
{
    lemma_le_unsigned_bound(a);
    lemma_le_unsigned_bound(b);
    lemma_le_unsigned_injective(a, b);
}

/// Reads the signed number in the `width` bytes from `at` on.
fn read_sample(data: &[u8], at: usize, width: usize, half: i64) -> (r: i32)
    requires
        at + width <= data@.len(),
        (width == 2 && half == 0x8000) || (width == 3 && half == 0x80_0000) || (width == 4 && half
            == 0x8000_0000),
    ensures
        r == le_signed(data@.subrange(at as int, at + width), half as int),
{
    let ghost bytes = data@.subrange(at as int, at + width);
    let mut acc: i64 = 0;
    let mut k: usize = width;
    proof {
        lemma_le_unsigned_bound(bytes.skip(k as int));
    }
    while k > 0
        invariant
            k <= width <= 4,
            at + width <= data.len(),
            bytes == data@.subrange(at as int, at + width),
            acc == le_unsigned(bytes.skip(k as int)),
            0 <= acc < 0x1_0000_0000,
            k > 0 ==> acc < 0x100_0000,
        decreases k,
    {
        k = k - 1;
        assert(bytes.skip(k as int).drop_first() =~= bytes.skip(k + 1));
        assert(bytes.skip(k as int)[0] == data@[at + k]);
        acc = acc * 256 + data[at + k] as i64;
        proof {
            lemma_le_unsigned_bound(bytes.skip(k as int));
        }
    }
    assert(bytes.skip(0) =~= bytes);
    proof {
        lemma_le_unsigned_bound(bytes);
    }
    if acc < half {
        acc as i32
    } else {
        (acc - 2 * half) as i32
    }
}

/// Decodes interleaved samples of 16, 24 or 32 bits; 32-bit samples are integers
/// too. Every value lies within the full scale.
pub fn decode_pcm_samples(data: &[u8], channels: usize, bit_depth: u8) -> (r: Option<PcmSamples>)
    ensures
        match r {
            Some(samples) => pcm_samples(data@, channels as nat, bit_depth) == Some(samples.values@)
                && samples.full_scale == full_scale_of(bit_depth),
            None => pcm_samples(data@, channels as nat, bit_depth) is None,
        },
        r matches Some(samples) ==> forall|i: int|
            0 <= i < samples.values@.len() ==> -samples.full_scale <= #[trigger] samples.values@[i]
                < samples.full_scale && samples.values@[i] == le_signed(
                data@.subrange(
                    i * sample_width(bit_depth)->0,
                    i * sample_width(bit_depth)->0 + sample_width(bit_depth)->0,
                ),
                samples.full_scale as int,
            ),
{
    let (width, full_scale): (usize, u32) = match bit_depth {
        16 => (2, 32_768),
        24 => (3, 8_388_608),
        32 => (4, 2_147_483_648),
        _ => {
            return None;
        },
    };
    if data.len() % width != 0 {
        return None;
    }
    let count: usize = data.len() / width;
    let whole_frames = if channels == 0 {
        count == 0
    } else {
        count % channels == 0
    };
    if !whole_frames {
        return None;
    }
    let mut values: Vec<i32> = Vec::new();
    let mut i: usize = 0;
    let mut at: usize = 0;
    assert(count * width == data@.len()) by (nonlinear_arith)
        requires
            count == data@.len() as int / width as int,
            data@.len() as int % width as int == 0,
            width > 0,
    ;
    while i < count
        invariant
            i <= count,
            at == i * width,
            count * width == data.len(),
            (width == 2 && full_scale == 0x8000) || (width == 3 && full_scale == 0x80_0000) || (
            width == 4 && full_scale == 0x8000_0000),
            values@.len() == i,
            forall|k: int|
                #![trigger values@[k]]
                0 <= k < i ==> values@[k] == le_signed(
                    data@.subrange(k * width, k * width + width),
                    full_scale as int,
                ) && -full_scale <= values@[k] < full_scale,
        decreases count - i,
    {
        assert(at + width <= data@.len()) by (nonlinear_arith)
            requires
                at == i * width,
                i < count,
                count * width == data@.len(),
        ;
        let value = read_sample(data, at, width, full_scale as i64);
        proof {
            lemma_le_unsigned_bound(data@.subrange(at as int, at + width));
        }
        values.push(value);
        i = i + 1;
        at = at + width;
        assert(at == i * width) by (nonlinear_arith)
            requires
                at == (i - 1) * width + width,
        ;
    }
    let samples = PcmSamples { full_scale, values };
    assert(pcm_samples(data@, channels as nat, bit_depth).unwrap() =~= samples.values@);
    Some(samples)
}

/// Bytes are decoded just where they make up whole samples of 16, 24 or 32 bits and
/// those whole frames.
pub proof fn law_whole_frames_are_decoded(data: Seq<u8>, channels: nat, bit_depth: u8)
    requires
        channels > 0,
    ensures
        bit_depth == 16 ==> (pcm_samples(data, channels, bit_depth) is Some) == (data.len() % 2 == 0
            && (data.len() / 2) % channels == 0),
        bit_depth == 24 ==> (pcm_samples(data, channels, bit_depth) is Some) == (data.len() % 3 == 0
            && (data.len() / 3) % channels == 0),
        bit_depth == 32 ==> (pcm_samples(data, channels, bit_depth) is Some) == (data.len() % 4 == 0
            && (data.len() / 4) % channels == 0),
        bit_depth != 16 && bit_depth != 24 && bit_depth != 32 ==> pcm_samples(
            data,
            channels,
            bit_depth,
        ) is None,
{
}

/// A sample of 16 bits is its two bytes, the lower one first, as a number from -32768 to
/// 32767.
pub proof fn law_samples_of_16_bits(data: Seq<u8>, channels: nat, index: int)
    requires
        pcm_samples(data, channels, 16) matches Some(samples) && 0 <= index < samples.len(),
    ensures
        ({
            let sample = pcm_samples(data, channels, 16)->0[index];
            let value = data[2 * index] + 256 * data[2 * index + 1];
            &&& pcm_samples(data, channels, 16)->0.len() * 2 == data.len()
            &&& sample == if value < 0x8000 {
                value
            } else {
                value - 0x1_0000
            }
            &&& full_scale_of(16) == 0x8000
        }),
{
    lemma_sample_fits(data, channels, 16, index);
    let bytes = data.subrange(index * 2, index * 2 + 2);
    reveal_with_fuel(le_unsigned, 4);
    assert(bytes.drop_first()[0] == bytes[1]);
    assert(bytes.drop_first().drop_first().len() == 0);
}

/// A sample of 24 bits is its three bytes, the lowest one first, as a signed number.
pub proof fn law_samples_of_24_bits(data: Seq<u8>, channels: nat, index: int)
    requires
        pcm_samples(data, channels, 24) matches Some(samples) && 0 <= index < samples.len(),
    ensures
        ({
            let sample = pcm_samples(data, channels, 24)->0[index];
            let at = 3 * index;
            let value = data[at] + 256 * data[at + 1] + 0x1_0000 * data[at + 2];
            &&& pcm_samples(data, channels, 24)->0.len() * 3 == data.len()
            &&& sample == if value < 0x80_0000 {
                value
            } else {
                value - 0x100_0000
            }
            &&& full_scale_of(24) == 0x80_0000
        }),
{
    lemma_sample_fits(data, channels, 24, index);
    let bytes = data.subrange(index * 3, index * 3 + 3);
    reveal_with_fuel(le_unsigned, 5);
    assert(bytes.drop_first()[0] == bytes[1]);
    assert(bytes.drop_first().drop_first()[0] == bytes[2]);
    assert(bytes.drop_first().drop_first().drop_first().len() == 0);
}

/// A sample of 32 bits is its four bytes, the lowest one first, as a signed number.
pub proof fn law_samples_of_32_bits(data: Seq<u8>, channels: nat, index: int)
    requires
        pcm_samples(data, channels, 32) matches Some(samples) && 0 <= index < samples.len(),
    ensures
        ({
            let sample = pcm_samples(data, channels, 32)->0[index];
            let value = data[4 * index] + 256 * data[4 * index + 1] + 0x1_0000 * data[4 * index + 2]
                + 0x100_0000 * data[4 * index + 3];
            &&& pcm_samples(data, channels, 32)->0.len() * 4 == data.len()
            &&& sample == if value < 0x8000_0000 {
                value
            } else {
                value - 0x1_0000_0000
            }
            &&& full_scale_of(32) == 0x8000_0000
        }),
{
    lemma_sample_fits(data, channels, 32, index);
    let bytes = data.subrange(index * 4, index * 4 + 4);
    reveal_with_fuel(le_unsigned, 6);
    assert(bytes.drop_first()[0] == bytes[1]);
    assert(bytes.drop_first().drop_first()[0] == bytes[2]);
    assert(bytes.drop_first().drop_first().drop_first()[0] == bytes[3]);
    assert(bytes.drop_first().drop_first().drop_first().drop_first().len() == 0);
}

} // verus!
