//! WAV serialization.
//!
//! The finalized sample buffer is serialized into the canonical PCM WAV
//! container: a fixed 44-byte header (RIFF chunk, PCM `fmt ` chunk,
//! `data` chunk header) followed by the samples as 16-bit signed
//! little-endian values. Before serialization the buffer is padded with
//! zero-valued samples to a multiple of the channel count, so that the
//! container's frame count is integral and the channels cannot desync.

use vstd::bytes::{spec_u16_to_le_bytes, spec_u32_to_le_bytes, u16_to_le_bytes, u32_to_le_bytes};
use vstd::prelude::*;

use crate::config::Config;
use crate::gap::{append_silence, silence};

verus! {

/// Number of interleaved channels in the archived recording.
pub const CHANNEL_COUNT: u16 = 2;

/// Bit depth of the archived recording.
pub const BITS_PER_SAMPLE: u16 = 16;

/// The smallest length that is at least `len` and a multiple of
/// `channels`.
pub open spec fn padded_len(len: int, channels: int) -> int
    recommends
        channels > 0,
{
    if len % channels == 0 {
        len
    } else {
        len + (channels - len % channels)
    }
}

/// Padding a buffer to a multiple of the channel count is idempotent:
/// a padded length needs no further padding, so padding twice adds
/// nothing beyond padding once.
pub proof fn lemma_padding_idempotent(len: int, channels: int)
    requires
        channels > 0,
        len >= 0,
    ensures
        padded_len(len, channels) % channels == 0,
        len <= padded_len(len, channels) < len + channels,
        padded_len(padded_len(len, channels), channels) == padded_len(len, channels),
{
    if len % channels != 0 {
        let r = len % channels;
        assert(0 <= r < channels);
        assert((len + (channels - r)) % channels == 0) by (nonlinear_arith)
            requires
                channels > 0,
                len >= 0,
                r == len % channels,
                r != 0,
        ;
    }
}

/// The two little-endian bytes of one signed 16-bit sample.
pub open spec fn sample_le_bytes(s: i16) -> Seq<u8> {
    spec_u16_to_le_bytes(sample_bits(s))
}

/// The 16-bit two's-complement pattern of a sample.
pub open spec fn sample_bits(s: i16) -> u16 {
    if s >= 0 {
        s as u16
    } else {
        (s + 0x10000) as u16
    }
}

/// The byte serialization of a sample sequence: each sample as two
/// little-endian bytes, in order.
pub open spec fn samples_le_bytes(samples: Seq<i16>) -> Seq<u8>
    decreases samples.len(),
{
    if samples.len() == 0 {
        Seq::empty()
    } else {
        samples_le_bytes(samples.drop_last()) + sample_le_bytes(samples.last())
    }
}

/// Serializing one more sample appends its two bytes.
pub proof fn lemma_samples_le_bytes_push(samples: Seq<i16>, s: i16)
    ensures
        samples_le_bytes(samples.push(s)) == samples_le_bytes(samples) + sample_le_bytes(s),
{
    assert(samples.push(s).drop_last() =~= samples);
    assert(samples.push(s).last() == s);
}

/// A sample sequence serializes to exactly two bytes per sample.
pub proof fn lemma_samples_le_bytes_len(samples: Seq<i16>)
    ensures
        samples_le_bytes(samples).len() == 2 * samples.len(),
    decreases samples.len(),
{
    if samples.len() > 0 {
        lemma_samples_le_bytes_len(samples.drop_last());
        lemma_auto_u16_le_len();
    }
}

proof fn lemma_auto_u16_le_len()
    ensures
        forall|x: u16| (#[trigger] spec_u16_to_le_bytes(x)).len() == 2,
{
    vstd::bytes::lemma_auto_spec_u16_to_from_le_bytes();
}

proof fn lemma_auto_u32_le_len()
    ensures
        forall|x: u32| (#[trigger] spec_u32_to_le_bytes(x)).len() == 4,
{
    vstd::bytes::lemma_auto_spec_u32_to_from_le_bytes();
}

/// A WAV file is its 44-byte header plus two bytes per sample.
pub proof fn lemma_wav_file_len(channels: u16, sample_rate: u32, samples: Seq<i16>)
    ensures
        spec_wav_file(channels, sample_rate, samples).len() == 44 + 2 * samples.len(),
{
    lemma_samples_le_bytes_len(samples);
    lemma_auto_u16_le_len();
    lemma_auto_u32_le_len();
}

/// The canonical 44-byte PCM WAV header for 16-bit samples: the RIFF
/// chunk, the 16-byte PCM `fmt ` chunk, and the `data` chunk header.
pub open spec fn spec_wav_header(channels: u16, sample_rate: u32, data_len: int) -> Seq<u8>
    recommends
        channels >= 1,
        36 + data_len <= u32::MAX,
        (sample_rate as int) * (channels as int) * 2 <= u32::MAX,
{
    seq![0x52u8, 0x49u8, 0x46u8, 0x46u8]  // "RIFF"
    + spec_u32_to_le_bytes((36 + data_len) as u32)
    + seq![0x57u8, 0x41u8, 0x56u8, 0x45u8]  // "WAVE"
    + seq![0x66u8, 0x6du8, 0x74u8, 0x20u8]  // "fmt "
    + spec_u32_to_le_bytes(16u32)  // PCM fmt chunk length
    + spec_u16_to_le_bytes(1u16)  // PCM format tag
    + spec_u16_to_le_bytes(channels)
    + spec_u32_to_le_bytes(sample_rate)
    + spec_u32_to_le_bytes(((sample_rate as int) * (channels as int) * 2) as u32)  // byte rate
    + spec_u16_to_le_bytes(((channels as int) * 2) as u16)  // block align
    + spec_u16_to_le_bytes(BITS_PER_SAMPLE)
    + seq![0x64u8, 0x61u8, 0x74u8, 0x61u8]  // "data"
    + spec_u32_to_le_bytes(data_len as u32)
}

/// A whole WAV file: the header followed by the serialized samples.
pub open spec fn spec_wav_file(channels: u16, sample_rate: u32, samples: Seq<i16>) -> Seq<u8> {
    spec_wav_header(channels, sample_rate, 2 * samples.len() as int) + samples_le_bytes(samples)
}

/// Append zero-valued samples until the buffer length is a multiple of
/// the channel count; a buffer already aligned is left unchanged, and
/// fewer than `channels` samples are ever added.
pub fn pad_to_channel_multiple(samples: &mut Vec<i16>, channels: u16)
    requires
        channels > 0,
        padded_len(old(samples)@.len() as int, channels as int) <= usize::MAX,
    ensures
        final(samples)@ == old(samples)@ + silence(
            (padded_len(old(samples)@.len() as int, channels as int) - old(samples)@.len()) as nat,
        ),
        final(samples)@.len() == padded_len(old(samples)@.len() as int, channels as int),
        (final(samples)@.len() as int) % (channels as int) == 0,
        final(samples)@.len() - old(samples)@.len() < channels,
{
    proof {
        lemma_padding_idempotent(samples@.len() as int, channels as int);
    }
    let channels_count = channels as usize;
    let remainder = samples.len() % channels_count;
    if remainder != 0 {
        append_silence(samples, channels_count - remainder);
    } else {
        proof {
            assert(samples@ =~= samples@ + silence(0));
        }
    }
}

/// Append four literal bytes.
fn push_four(out: &mut Vec<u8>, a: u8, b: u8, c: u8, d: u8)
    ensures
        final(out)@ == old(out)@ + seq![a, b, c, d],
{
    out.push(a);
    out.push(b);
    out.push(c);
    out.push(d);
    proof {
        assert(out@ =~= old(out)@ + seq![a, b, c, d]);
    }
}

/// Append a `u32` as four little-endian bytes.
fn push_u32_le(out: &mut Vec<u8>, x: u32)
    ensures
        final(out)@ == old(out)@ + spec_u32_to_le_bytes(x),
{
    let mut bytes = u32_to_le_bytes(x);
    out.append(&mut bytes);
}

/// Append a `u16` as two little-endian bytes.
fn push_u16_le(out: &mut Vec<u8>, x: u16)
    ensures
        final(out)@ == old(out)@ + spec_u16_to_le_bytes(x),
{
    let mut bytes = u16_to_le_bytes(x);
    out.append(&mut bytes);
}

/// Append one sample as two little-endian bytes of its two's-complement
/// bit pattern.
fn push_sample_le(out: &mut Vec<u8>, s: i16)
    ensures
        final(out)@ == old(out)@ + sample_le_bytes(s),
{
    let bits: u16 = if s >= 0 {
        s as u16
    } else {
        ((s as i32) + 0x10000) as u16
    };
    push_u16_le(out, bits);
}

/// Serialize samples into a complete in-memory WAV file with the given
/// channel count and sample rate. The caller is responsible for channel
/// alignment; see [`pad_to_channel_multiple`].
pub fn encode_wav(samples: &Vec<i16>, channels: u16, sample_rate: u32) -> (out: Vec<u8>)
    requires
        channels >= 1,
        (channels as int) * 2 <= u16::MAX,
        (sample_rate as int) * (channels as int) * 2 <= u32::MAX,
        36 + 2 * samples@.len() <= u32::MAX,
    ensures
        out@ == spec_wav_file(channels, sample_rate, samples@),
        out@.len() == 44 + 2 * samples@.len(),
{
    proof {
        lemma_wav_file_len(channels, sample_rate, samples@);
    }
    let data_len: u32 = (samples.len() as u64 * 2) as u32;
    let byte_rate_wide: u64 = (sample_rate as u64) * (channels as u64) * 2;
    proof {
        assert((sample_rate as u64) * (channels as u64) * 2
            == (sample_rate as int) * (channels as int) * 2) by (nonlinear_arith)
            requires
                sample_rate <= u32::MAX,
                channels <= u16::MAX,
        ;
    }
    let byte_rate: u32 = byte_rate_wide as u32;
    let block_align: u16 = channels * 2;

    let mut out: Vec<u8> = Vec::new();
    push_four(&mut out, 0x52, 0x49, 0x46, 0x46);  // "RIFF"
    proof {
        assert(out@ =~= seq![0x52u8, 0x49u8, 0x46u8, 0x46u8]);
    }
    push_u32_le(&mut out, 36 + data_len);
    push_four(&mut out, 0x57, 0x41, 0x56, 0x45);  // "WAVE"
    push_four(&mut out, 0x66, 0x6d, 0x74, 0x20);  // "fmt "
    push_u32_le(&mut out, 16);
    push_u16_le(&mut out, 1);
    push_u16_le(&mut out, channels);
    push_u32_le(&mut out, sample_rate);
    push_u32_le(&mut out, byte_rate);
    push_u16_le(&mut out, block_align);
    push_u16_le(&mut out, BITS_PER_SAMPLE);
    push_four(&mut out, 0x64, 0x61, 0x74, 0x61);  // "data"
    push_u32_le(&mut out, data_len);
    proof {
        assert(out@ =~= spec_wav_header(channels, sample_rate, 2 * samples@.len() as int));
    }

    let ghost header = out@;
    proof {
        assert(out@ =~= header + samples_le_bytes(samples@.take(0)));
    }
    let mut i: usize = 0;
    while i < samples.len()
        invariant
            0 <= i <= samples@.len(),
            out@ == header + samples_le_bytes(samples@.take(i as int)),
        decreases samples@.len() - i,
    {
        push_sample_le(&mut out, samples[i]);
        proof {
            assert(samples@.take(i + 1) =~= samples@.take(i as int).push(samples@[i as int]));
            lemma_samples_le_bytes_push(samples@.take(i as int), samples@[i as int]);
            assert(out@ =~= header + samples_le_bytes(samples@.take(i + 1)));
        }
        i = i + 1;
    }
    proof {
        assert(samples@.take(samples@.len() as int) =~= samples@);
    }
    out
}

/// Pad a finalized capture buffer to the fixed channel count and
/// serialize it as a WAV file at the configured sample rate.
pub fn encode_recording(samples: Vec<i16>, config: Config) -> (out: Vec<u8>)
    requires
        padded_len(samples@.len() as int, CHANNEL_COUNT as int) <= usize::MAX,
        36 + 2 * padded_len(samples@.len() as int, CHANNEL_COUNT as int) <= u32::MAX,
        (config.sample_rate as int) * (CHANNEL_COUNT as int) * 2 <= u32::MAX,
    ensures
        out@ == spec_wav_file(
            CHANNEL_COUNT,
            config.sample_rate,
            samples@ + silence(
                (padded_len(samples@.len() as int, CHANNEL_COUNT as int) - samples@.len()) as nat,
            ),
        ),
        out@.len() == 44 + 2 * padded_len(samples@.len() as int, CHANNEL_COUNT as int),
{
    let mut padded = samples;
    pad_to_channel_multiple(&mut padded, CHANNEL_COUNT);
    encode_wav(&padded, CHANNEL_COUNT, config.sample_rate)
}

} // verus!
