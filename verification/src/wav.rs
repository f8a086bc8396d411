//! The WAVE file that a recording is sent as: mono, 16-bit PCM, written by
//! `hound`.
use vstd::prelude::*;

verus! {

#[verifier::external_type_specification]
#[verifier::external_body]
pub struct ExHoundError(hound::Error);

/// `x` as two little-endian bytes.
pub open spec fn le16(x: int) -> Seq<u8> {
    seq![(x % 256) as u8, ((x / 256) % 256) as u8]
}

/// `x` as four little-endian bytes.
pub open spec fn le32(x: int) -> Seq<u8> {
    seq![(x % 256) as u8, ((x / 256) % 256) as u8, ((x / 65536) % 256) as u8, ((x / 16777216) % 256) as u8]
}

/// The bytes `R`, `I`, `F`, `F`.
pub open spec fn riff_tag() -> Seq<u8> {
    seq![0x52u8, 0x49u8, 0x46u8, 0x46u8]
}

/// The bytes `W`, `A`, `V`, `E`.
pub open spec fn wave_tag() -> Seq<u8> {
    seq![0x57u8, 0x41u8, 0x56u8, 0x45u8]
}

/// The bytes `f`, `m`, `t`, ` `.
pub open spec fn fmt_tag() -> Seq<u8> {
    seq![0x66u8, 0x6du8, 0x74u8, 0x20u8]
}

/// The bytes `d`, `a`, `t`, `a`.
pub open spec fn data_tag() -> Seq<u8> {
    seq![0x64u8, 0x61u8, 0x74u8, 0x61u8]
}

/// The 44-byte header of a mono 16-bit PCM WAVE file of `n` samples at `rate`.
pub open spec fn wav_header(rate: u32, n: nat) -> Seq<u8> {
    riff_tag() + le32(36 + 2 * n as int) + wave_tag() + fmt_tag() + le32(16) + le16(1) + le16(1)
        + le32(rate as int) + le32(2 * rate) + le16(2) + le16(16) + data_tag() + le32(2 * n as int)
}

/// The samples as two's-complement little-endian 16-bit values.
pub open spec fn pcm16_bytes(samples: Seq<i16>) -> Seq<u8> {
    Seq::new(
        2 * samples.len(),
        |i: int|
            {
                let s = samples[i / 2] as int;
                let u = if s < 0 { s + 65536 } else { s };
                if i % 2 == 0 { (u % 256) as u8 } else { (u / 256) as u8 }
            },
    )
}

/// The mono 16-bit PCM WAVE file of `samples` at `rate`.
pub open spec fn wav_pcm16_mono(rate: u32, samples: Seq<i16>) -> Seq<u8> {
    wav_header(rate, samples.len()) + pcm16_bytes(samples)
}

/// The sizes that a WAVE file's header can hold.
pub open spec fn wav_encodable(rate: u32, n: nat) -> bool {
    1 <= rate && 2 * rate <= u32::MAX && 36 + 2 * n <= u32::MAX
}

/// Whether a WAVE file of `n` samples at `sample_rate` can be written.
pub fn wav_size_fits(sample_rate: u32, n: usize) -> (r: bool)
    ensures
        r == wav_encodable(sample_rate, n as nat),
{
    sample_rate >= 1 && sample_rate <= 2147483647 && n <= 2147483629
}

/// Writes `samples` as a mono 16-bit PCM WAVE file at `sample_rate` with
/// `hound::WavWriter` (`new` on an in-memory cursor, `write_sample` for each
/// sample, `finalize`). The writer borrows the buffer it writes to, so the
/// three calls stand together here.
///
/// Claimed from hound's source: for 16-bit integer mono it writes the
/// 16-byte PCM `fmt ` chunk, each sample as two little-endian bytes, and
/// then sets the two sizes in the header; writes to a `Vec` cannot fail.
/// Required: a non-zero rate (hound divides by it) and sizes that its `u32`
/// arithmetic holds.
#[verifier::external_body]
fn hound_write_wav(samples: &[i16], sample_rate: u32) -> (r: Result<Vec<u8>, hound::Error>)
    requires
        wav_encodable(sample_rate, samples@.len()),
    ensures
        r is Ok,
        r->Ok_0@ == wav_pcm16_mono(sample_rate, samples@),
{
    let spec = hound::WavSpec {
        channels: 1,
        sample_rate,
        bits_per_sample: 16,
        sample_format: hound::SampleFormat::Int,
    };
    let mut cursor = std::io::Cursor::new(Vec::new());
    let mut writer = hound::WavWriter::new(&mut cursor, spec)?;
    for &sample in samples {
        writer.write_sample(sample)?;
    }
    writer.finalize()?;
    Ok(cursor.into_inner())
}

/// The mono 16-bit PCM WAVE file of `samples` at `sample_rate`.
pub fn encode_wav(samples: &[i16], sample_rate: u32) -> (r: Vec<u8>)
    requires
        wav_encodable(sample_rate, samples@.len()),
    ensures
        r@ == wav_pcm16_mono(sample_rate, samples@),
{
    match hound_write_wav(samples, sample_rate) {
        Ok(bytes) => bytes,
        Err(_) => Vec::new(),
    }
}

/// The WAVE file of a finished recording, or `No audio recorded` when
/// nothing was recorded.
pub fn recording_to_wav(samples: &[i16], sample_rate: u32) -> (r: Result<Vec<u8>, String>)
    requires
        samples@.len() > 0 ==> wav_encodable(sample_rate, samples@.len()),
    ensures
        samples@.len() == 0 ==> (r matches Err(e) && e@ == "No audio recorded"@),
        samples@.len() > 0 ==> (r matches Ok(bytes) && bytes@ == wav_pcm16_mono(sample_rate, samples@)),
{
    if samples.len() == 0 {
        return Err(String::from_str("No audio recorded"));
    }
    Ok(encode_wav(samples, sample_rate))
}

/// A WAVE file of `n` samples is its 44-byte header followed by two bytes
/// per sample, and the sizes in its header are those of the whole file less
/// the first eight bytes and of the sample data.
pub proof fn law_wav_layout(rate: u32, samples: Seq<i16>)
    ensures
        wav_header(rate, samples.len()).len() == 44,
        wav_pcm16_mono(rate, samples).len() == 44 + 2 * samples.len(),
        wav_pcm16_mono(rate, samples).subrange(4, 8) == le32(wav_pcm16_mono(rate, samples).len() - 8),
        wav_pcm16_mono(rate, samples).subrange(40, 44) == le32(wav_pcm16_mono(rate, samples).len() - 44),
        wav_pcm16_mono(rate, samples).subrange(44, 44 + 2 * samples.len() as int) == pcm16_bytes(samples),
{
    let h = wav_header(rate, samples.len());
    let w = wav_pcm16_mono(rate, samples);
    assert(w.subrange(4, 8) =~= le32(36 + 2 * samples.len() as int));
    assert(w.subrange(40, 44) =~= le32(2 * samples.len() as int));
    assert(w.subrange(44, 44 + 2 * samples.len() as int) =~= pcm16_bytes(samples));
}

} // verus!
