//! The WAV container around raw speech samples.

use vstd::prelude::*;

verus! {

/// Sample rate of the speech synthesiser's raw output.
pub const SPEECH_SAMPLE_RATE: u32 = 22050;

/// Channels of the speech synthesiser's raw output.
pub const SPEECH_CHANNELS: u16 = 1;

/// Bits per sample of the speech synthesiser's raw output.
pub const SPEECH_BITS_PER_SAMPLE: u16 = 16;

/// Synthesised speech as a complete WAV file.
#[derive(Clone, Debug, PartialEq, Eq)]
pub struct TtsResult {
    pub wav_bytes: Vec<u8>,
}

/// The four bytes of `x`, least significant first.
pub open spec fn le_u32(x: u32) -> Seq<u8> {
    seq![(x % 256) as u8, ((x / 256) % 256) as u8, ((x / 65536) % 256) as u8, (x / 16777216) as u8]
}

/// The two bytes of `x`, least significant first.
pub open spec fn le_u16(x: u16) -> Seq<u8> {
    seq![(x % 256) as u8, (x / 256) as u8]
}

/// A length as the 32-bit field of a WAV header holds it: its low 32 bits.
pub open spec fn size_field(data_size: usize) -> u32 {
    (data_size as nat % 4294967296) as u32
}

/// The 44-byte header of a PCM WAV file holding `data_size` bytes.
pub open spec fn wav_header(data_size: usize, sample_rate: u32, channels: u16, bits_per_sample: u16) -> Seq<u8> {
    seq![82u8, 73, 70, 70] + le_u32((36 + size_field(data_size)) as u32) + seq![87u8, 65, 86, 69]
        + seq![102u8, 109, 116, 32] + le_u32(16) + le_u16(1) + le_u16(channels) + le_u32(sample_rate)
        + le_u32((sample_rate * channels * bits_per_sample / 8) as u32)
        + le_u16((channels * bits_per_sample / 8) as u16) + le_u16(bits_per_sample)
        + seq![100u8, 97, 116, 97] + le_u32(size_field(data_size))
}

/// The header fields fit their widths.
pub open spec fn header_fits(data_size: usize, sample_rate: u32, channels: u16, bits_per_sample: u16) -> bool {
    &&& size_field(data_size) + 36 <= u32::MAX
    &&& sample_rate * channels <= u32::MAX
    &&& sample_rate * channels * bits_per_sample <= u32::MAX
    &&& channels * bits_per_sample <= u16::MAX
}

fn push_le_u32(out: &mut Vec<u8>, x: u32)
    ensures
        final(out)@ == old(out)@ + le_u32(x),
{
    out.push((x % 256) as u8);
    out.push(((x / 256) % 256) as u8);
    out.push(((x / 65536) % 256) as u8);
    out.push((x / 16777216) as u8);
    assert(final(out)@ =~= old(out)@ + le_u32(x));
}

fn push_le_u16(out: &mut Vec<u8>, x: u16)
    ensures
        final(out)@ == old(out)@ + le_u16(x),
{
    out.push((x % 256) as u8);
    out.push((x / 256) as u8);
    assert(final(out)@ =~= old(out)@ + le_u16(x));
}

fn push_tag(out: &mut Vec<u8>, a: u8, b: u8, c: u8, d: u8)
    ensures
        final(out)@ == old(out)@ + seq![a, b, c, d],
{
    out.push(a);
    out.push(b);
    out.push(c);
    out.push(d);
    assert(final(out)@ =~= old(out)@ + seq![a, b, c, d]);
}

/// The header of a PCM WAV file holding `data_size` bytes of samples.
pub fn create_wav_header(data_size: usize, sample_rate: u32, channels: u16, bits_per_sample: u16) -> (r: Vec<u8>)
    requires
        header_fits(data_size, sample_rate, channels, bits_per_sample),
    ensures
        r@ == wav_header(data_size, sample_rate, channels, bits_per_sample),
        r@.len() == 44,
{
    let byte_rate: u32 = sample_rate * (channels as u32) * (bits_per_sample as u32) / 8;
    let block_align: u16 = channels * bits_per_sample / 8;
    let size: u32 = (data_size as u64 % 4294967296u64) as u32;
    let mut header: Vec<u8> = Vec::with_capacity(44);
    push_tag(&mut header, 82, 73, 70, 70);
    push_le_u32(&mut header, 36 + size);
    push_tag(&mut header, 87, 65, 86, 69);
    push_tag(&mut header, 102, 109, 116, 32);
    push_le_u32(&mut header, 16);
    push_le_u16(&mut header, 1);
    push_le_u16(&mut header, channels);
    push_le_u32(&mut header, sample_rate);
    push_le_u32(&mut header, byte_rate);
    push_le_u16(&mut header, block_align);
    push_le_u16(&mut header, bits_per_sample);
    push_tag(&mut header, 100, 97, 116, 97);
    push_le_u32(&mut header, size);
    assert(header@ =~= wav_header(data_size, sample_rate, channels, bits_per_sample));
    header
}

/// A WAV file of the synthesiser's raw samples: its header, then `pcm`.
pub fn wav_from_pcm(pcm: Vec<u8>) -> (r: TtsResult)
    requires
        size_field(pcm.len()) + 36 <= u32::MAX,
    ensures
        r.wav_bytes@ == wav_header(pcm.len(), SPEECH_SAMPLE_RATE, SPEECH_CHANNELS, SPEECH_BITS_PER_SAMPLE)
            + pcm@,
{
    let mut pcm = pcm;
    let mut wav = create_wav_header(pcm.len(), SPEECH_SAMPLE_RATE, SPEECH_CHANNELS, SPEECH_BITS_PER_SAMPLE);
    let ghost head = wav@;
    let ghost body = pcm@;
    wav.append(&mut pcm);
    assert(wav@ =~= head + body);
    TtsResult { wav_bytes: wav }
}

} // verus!
