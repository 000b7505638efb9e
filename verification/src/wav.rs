//! RIFF/WAVE framing of 16-bit mono PCM for cloud speech-to-text uploads.
use vstd::prelude::*;

verus! {

/// Minimum samples (about 100 ms at 16 kHz) before a cloud provider is worth calling.
pub const MIN_CLOUD_SAMPLES: usize = 1600;

/// The sample rate the providers upload at.
pub const CLOUD_SAMPLE_RATE: u32 = 16000;

/// Size in bytes of the RIFF/WAVE header written before the samples.
pub const WAV_HEADER_LEN: usize = 44;

/// The two little-endian bytes of `x`.
pub open spec fn le16(x: u16) -> Seq<u8> {
    seq![(x % 256) as u8, (x / 256) as u8]
}

/// The four little-endian bytes of `x`.
pub open spec fn le32(x: u32) -> Seq<u8> {
    seq![
        (x % 256) as u8,
        ((x / 256) % 256) as u8,
        ((x / 65536) % 256) as u8,
        (x / 16777216) as u8,
    ]
}

/// The two's-complement bit pattern of a 16-bit sample.
pub open spec fn sample_bits(x: i16) -> u16 {
    if x < 0 {
        (x + 65536) as u16
    } else {
        x as u16
    }
}

/// The samples as consecutive little-endian 16-bit words.
pub open spec fn pcm16_le(samples: Seq<i16>) -> Seq<u8>
    decreases samples.len(),
{
    if samples.len() == 0 {
        seq![]
    } else {
        pcm16_le(samples.drop_last()) + le16(sample_bits(samples.last()))
    }
}

/// A length as the 32-bit field the header stores, wrapping at 2^32.
pub open spec fn len32(n: nat) -> u32 {
    (n % 0x1_0000_0000) as u32
}

/// The 44-byte header of a mono, 16-bit PCM WAVE file whose data chunk holds
/// `data_len` bytes and which plays at `rate` samples per second.
pub open spec fn wav_header(data_len: nat, rate: u32) -> Seq<u8> {
    seq![0x52u8, 0x49, 0x46, 0x46]  // "RIFF"
     + le32((len32(data_len) + 36) as u32) + seq![0x57u8, 0x41, 0x56, 0x45]  // "WAVE"
     + seq![0x66u8, 0x6d, 0x74, 0x20]  // "fmt "
     + le32(16) + le16(1)  // PCM
     + le16(1)  // one channel
     + le32(rate) + le32((rate * 2) as u32)  // byte rate
     + le16(2)  // block align
     + le16(16)  // bits per sample
     + seq![0x64u8, 0x61, 0x74, 0x61]  // "data"
     + le32(len32(data_len))
}

/// The whole WAVE file for `samples` at `rate`.
pub open spec fn wav_file(samples: Seq<i16>, rate: u32) -> Seq<u8> {
    wav_header(2 * samples.len(), rate) + pcm16_le(samples)
}

/// What the encoder accepts: the byte rate and the RIFF size fit their
/// 32-bit fields without overflowing, and the file fits in memory.
pub open spec fn wav_encodable(n: nat, rate: u32) -> bool {
    &&& rate * 2 <= u32::MAX
    &&& len32(2 * n) + 36 <= u32::MAX
    &&& 2 * n + 44 <= usize::MAX
}

fn push_le16(out: &mut Vec<u8>, x: u16)
    ensures
        final(out)@ == old(out)@ + le16(x),
{
    out.push((x % 256) as u8);
    out.push((x / 256) as u8);
}

fn push_le32(out: &mut Vec<u8>, x: u32)
    ensures
        final(out)@ == old(out)@ + le32(x),
{
    out.push((x % 256) as u8);
    out.push(((x / 256) % 256) as u8);
    out.push(((x / 65536) % 256) as u8);
    out.push((x / 16777216) as u8);
}

fn push_bytes4(out: &mut Vec<u8>, b0: u8, b1: u8, b2: u8, b3: u8)
    ensures
        final(out)@ == old(out)@ + seq![b0, b1, b2, b3],
{
    out.push(b0);
    out.push(b1);
    out.push(b2);
    out.push(b3);
}

/// The two's-complement bit pattern of `x`.
fn bits_of(x: i16) -> (r: u16)
    ensures
        r == sample_bits(x),
{
    if x < 0 {
        (x as i32 + 65536) as u16
    } else {
        x as u16
    }
}

/// Encodes mono 16-bit PCM samples as a WAVE byte buffer: a 44-byte RIFF
/// header (PCM format, one channel, `sample_rate`, 16 bits per sample)
/// followed by the samples in little-endian order.
pub fn pcm16_to_wav(samples: &[i16], sample_rate: u32) -> (wav: Vec<u8>)
    requires
        wav_encodable(samples@.len(), sample_rate),
    ensures
        wav@ == wav_file(samples@, sample_rate),
        wav@.len() == WAV_HEADER_LEN + 2 * samples@.len(),
{
    let n = samples.len();
    let data_len: usize = 2 * n;
    let data_len32: u32 = ((data_len as u64) % 0x1_0000_0000u64) as u32;
    let channels: u16 = 1;
    let bits_per_sample: u16 = 16;
    let block_align: u16 = channels * bits_per_sample / 8;
    let byte_rate: u32 = sample_rate * (block_align as u32);
    let chunk_size: u32 = 36 + data_len32;

    let mut wav: Vec<u8> = Vec::new();
    push_bytes4(&mut wav, 0x52, 0x49, 0x46, 0x46);
    push_le32(&mut wav, chunk_size);
    push_bytes4(&mut wav, 0x57, 0x41, 0x56, 0x45);
    push_bytes4(&mut wav, 0x66, 0x6d, 0x74, 0x20);
    push_le32(&mut wav, 16);
    push_le16(&mut wav, 1);
    push_le16(&mut wav, channels);
    push_le32(&mut wav, sample_rate);
    push_le32(&mut wav, byte_rate);
    push_le16(&mut wav, block_align);
    push_le16(&mut wav, bits_per_sample);
    push_bytes4(&mut wav, 0x64, 0x61, 0x74, 0x61);
    push_le32(&mut wav, data_len32);
    let ghost header = wav@;
    assert(header == wav_header(2 * samples@.len(), sample_rate));
    assert(pcm16_le(samples@.take(0)) == Seq::<u8>::empty());

    for i in 0..n
        invariant
            n == samples@.len(),
            header.len() == 44,
            wav@ == header + pcm16_le(samples@.take(i as int)),
    {
        let ghost before = samples@.take(i as int);
        push_le16(&mut wav, bits_of(samples[i]));
        proof {
            let after = samples@.take(i + 1);
            assert(after.drop_last() == before);
            assert(after.last() == samples@[i as int]);
        }
    }
    proof {
        assert(samples@.take(n as int) == samples@);
        lemma_pcm16_le_len(samples@);
    }
    wav
}

/// The data chunk holds two bytes per sample.
pub proof fn lemma_pcm16_le_len(samples: Seq<i16>)
    ensures
        pcm16_le(samples).len() == 2 * samples.len(),
    decreases samples.len(),
{
    if samples.len() > 0 {
        lemma_pcm16_le_len(samples.drop_last());
    }
}

/// The little-endian 16-bit word at `at` in `b`.
pub open spec fn read_le16(b: Seq<u8>, at: int) -> int {
    b[at] + 256 * b[at + 1]
}

/// The little-endian 32-bit word at `at` in `b`.
pub open spec fn read_le32(b: Seq<u8>, at: int) -> int {
    b[at] + 256 * b[at + 1] + 65536 * b[at + 2] + 16777216 * b[at + 3]
}

/// The signed sample whose two's-complement bit pattern is `u`.
pub open spec fn sample_of_bits(u: int) -> int {
    if u >= 32768 {
        u - 65536
    } else {
        u
    }
}

proof fn lemma_le16_reads_back(x: u16)
    ensures
        le16(x)[0] + 256 * le16(x)[1] == x,
{
    assert((x % 256) + 256 * (x / 256) == x) by (nonlinear_arith);
}

proof fn lemma_le32_reads_back(x: u32)
    ensures
        le32(x)[0] + 256 * le32(x)[1] + 65536 * le32(x)[2] + 16777216 * le32(x)[3] == x,
{
    assert((x % 256) + 256 * ((x / 256) % 256) + 65536 * ((x / 65536) % 256) + 16777216 * (x
        / 16777216) == x) by (nonlinear_arith);
}

/// Sample `i` occupies bytes `2i` and `2i + 1` of the data chunk.
pub proof fn lemma_pcm16_le_index(samples: Seq<i16>, i: int)
    requires
        0 <= i < samples.len(),
    ensures
        pcm16_le(samples).len() == 2 * samples.len(),
        pcm16_le(samples)[2 * i] == le16(sample_bits(samples[i]))[0],
        pcm16_le(samples)[2 * i + 1] == le16(sample_bits(samples[i]))[1],
    decreases samples.len(),
{
    lemma_pcm16_le_len(samples);
    let init = samples.drop_last();
    lemma_pcm16_le_len(init);
    if i < samples.len() - 1 {
        lemma_pcm16_le_index(init, i);
        assert(init[i] == samples[i]);
    }
}

/// Reading the produced file back gives what was written: the header's
/// fields describe one-channel 16-bit PCM at `rate` with `2 * len` data
/// bytes, and the little-endian words after the header are the samples.
pub proof fn lemma_wav_reads_back(samples: Seq<i16>, rate: u32)
    requires
        wav_encodable(samples.len(), rate),
    ensures
        ({
            let f = wav_file(samples, rate);
            &&& f.len() == 44 + 2 * samples.len()
            &&& f.take(4) == seq![0x52u8, 0x49, 0x46, 0x46]
            &&& read_le32(f, 4) == len32(2 * samples.len()) + 36
            &&& f.subrange(8, 16) == seq![0x57u8, 0x41, 0x56, 0x45, 0x66, 0x6d, 0x74, 0x20]
            &&& read_le32(f, 16) == 16
            &&& read_le16(f, 20) == 1
            &&& read_le16(f, 22) == 1
            &&& read_le32(f, 24) == rate
            &&& read_le32(f, 28) == rate * 2
            &&& read_le16(f, 32) == 2
            &&& read_le16(f, 34) == 16
            &&& f.subrange(36, 40) == seq![0x64u8, 0x61, 0x74, 0x61]
            &&& read_le32(f, 40) == len32(2 * samples.len())
            &&& forall|i: int|
                0 <= i < samples.len() ==> sample_of_bits(#[trigger] read_le16(f, 44 + 2 * i))
                    == samples[i]
        }),
{
    let n = samples.len();
    let f = wav_file(samples, rate);
    let h = wav_header(2 * n, rate);
    lemma_pcm16_le_len(samples);
    assert(h.len() == 44);
    lemma_le32_reads_back((len32(2 * n) + 36) as u32);
    lemma_le32_reads_back(16);
    lemma_le16_reads_back(1);
    lemma_le32_reads_back(rate);
    lemma_le32_reads_back((rate * 2) as u32);
    lemma_le16_reads_back(2);
    lemma_le16_reads_back(16);
    lemma_le32_reads_back(len32(2 * n));
    assert(f.take(4) == seq![0x52u8, 0x49, 0x46, 0x46]);
    assert(f.subrange(8, 16) == seq![0x57u8, 0x41, 0x56, 0x45, 0x66, 0x6d, 0x74, 0x20]);
    assert(f.subrange(36, 40) == seq![0x64u8, 0x61, 0x74, 0x61]);
    assert forall|i: int| 0 <= i < n implies sample_of_bits(#[trigger] read_le16(f, 44 + 2 * i))
        == samples[i] by {
        lemma_pcm16_le_index(samples, i);
        lemma_le16_reads_back(sample_bits(samples[i]));
        assert(f[44 + 2 * i] == pcm16_le(samples)[2 * i]);
        assert(f[44 + 2 * i + 1] == pcm16_le(samples)[2 * i + 1]);
    }
}

} // verus!
