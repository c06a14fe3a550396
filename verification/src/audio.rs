//! Audio recording bookkeeping and WAV file layout.
//!
//! The microphone and the storage card are probed by the application; the
//! library keeps the readiness state, bounds how much of each captured
//! chunk is kept, and lays out the recorded samples as a WAV file: a fixed
//! 44-byte header (PCM, mono, 16 bits per sample) followed by the raw data.

use vstd::prelude::*;

verus! {

/// Recorder state: whether recordings can be made and saved.
pub struct AudioRecorder {
    pub sd_mounted: bool,
}

impl AudioRecorder {
    /// A recorder is ready only when both the storage card mounted and the
    /// microphone interface came up.
    pub fn new(sd_mounted: bool, i2s_initialized: bool) -> (r: AudioRecorder)
        ensures
            r.sd_mounted == (sd_mounted && i2s_initialized),
    {
        AudioRecorder { sd_mounted: sd_mounted && i2s_initialized }
    }

    /// Whether a recording may start; when this is false the recording is
    /// skipped without error.
    pub fn recording_enabled(&self) -> (enabled: bool)
        ensures
            enabled == self.sd_mounted,
    {
        self.sd_mounted
    }
}

/// How many bytes a recording of the given duration takes.
pub fn recording_byte_budget(sample_rate: usize, duration_seconds: usize,
    bytes_per_sample: usize) -> (total: usize)
    requires
        sample_rate * duration_seconds <= usize::MAX,
        sample_rate * duration_seconds * bytes_per_sample <= usize::MAX,
    ensures
        total == sample_rate * duration_seconds * bytes_per_sample,
{
    sample_rate * duration_seconds * bytes_per_sample
}

/// How many of the `bytes_read` captured bytes are kept: all of them, or
/// just enough to fill the budget.
pub open spec fn spec_bytes_kept(bytes_read: int, len: int, total_bytes: int) -> int {
    if bytes_read <= total_bytes - len {
        bytes_read
    } else {
        total_bytes - len
    }
}

/// Append one captured chunk to the recording, truncated so the recording
/// never exceeds its byte budget: the first `bytes_read` bytes of `chunk`
/// are appended, or fewer when the budget has less room left.
#[verifier::loop_isolation(false)]
pub fn append_chunk(audio: &mut Vec<u8>, chunk: &Vec<u8>, bytes_read: usize, total_bytes: usize)
    requires
        bytes_read <= chunk@.len(),
        old(audio)@.len() <= total_bytes,
    ensures
        final(audio)@ == old(audio)@ + chunk@.take(spec_bytes_kept(bytes_read as int,
            old(audio)@.len() as int, total_bytes as int)),
        final(audio)@.len() <= total_bytes,
{
    let remaining = total_bytes - audio.len();
    let bytes_to_copy = if bytes_read <= remaining {
        bytes_read
    } else {
        remaining
    };
    let ghost prefix = audio@;
    let mut i: usize = 0;
    while i < bytes_to_copy
        invariant
            i <= bytes_to_copy,
            audio@ == prefix + chunk@.take(i as int),
        decreases bytes_to_copy - i,
    {
        audio.push(chunk[i]);
        assert(audio@ =~= prefix + chunk@.take(i + 1));
        i = i + 1;
    }
    assert(audio@ =~= prefix + chunk@.take(bytes_to_copy as int));
}

/// Little-endian byte pair of a 16-bit value.
pub open spec fn le16(v: u16) -> Seq<u8> {
    seq![(v % 0x100) as u8, (v / 0x100) as u8]
}

/// Little-endian bytes of a 32-bit value.
pub open spec fn le32(v: u32) -> Seq<u8> {
    seq![
        (v % 0x100) as u8,
        ((v / 0x100) % 0x100) as u8,
        ((v / 0x10000) % 0x100) as u8,
        (v / 0x1000000) as u8,
    ]
}

/// The 44-byte WAV header of a PCM recording: RIFF chunk with the total
/// size, format chunk for mono 16-bit samples at `sample_rate`, and the
/// data chunk header with the data size.
pub open spec fn spec_wav_header(data_size: u32, sample_rate: u32) -> Seq<u8> {
    seq![0x52u8, 0x49u8, 0x46u8, 0x46u8]  // "RIFF"
     + le32((36 + data_size) as u32) + seq![0x57u8, 0x41u8, 0x56u8, 0x45u8]  // "WAVE"
     + seq![0x66u8, 0x6Du8, 0x74u8, 0x20u8]  // "fmt "
     + le32(16)  // format chunk size
     + le16(1)  // PCM
     + le16(1)  // mono
     + le32(sample_rate) + le32((sample_rate * 2) as u32)  // byte rate
     + le16(2)  // block align
     + le16(16)  // bits per sample
     + seq![0x64u8, 0x61u8, 0x74u8, 0x61u8]  // "data"
     + le32(data_size)
}

/// Append the little-endian pair of a 16-bit value.
fn push_le16(out: &mut Vec<u8>, v: u16)
    ensures
        final(out)@ == old(out)@ + le16(v),
{
    out.push((v % 0x100) as u8);
    out.push((v / 0x100) as u8);
    assert(out@ =~= old(out)@ + le16(v));
}

/// Append the little-endian bytes of a 32-bit value.
fn push_le32(out: &mut Vec<u8>, v: u32)
    ensures
        final(out)@ == old(out)@ + le32(v),
{
    out.push((v % 0x100) as u8);
    out.push(((v / 0x100) % 0x100) as u8);
    out.push(((v / 0x10000) % 0x100) as u8);
    out.push((v / 0x1000000) as u8);
    assert(out@ =~= old(out)@ + le32(v));
}

/// Build the 44-byte WAV header for a recording of `data_size` bytes of
/// mono 16-bit PCM at `sample_rate`.
pub fn wav_header(data_size: u32, sample_rate: u32) -> (header: Vec<u8>)
    requires
        data_size <= u32::MAX - 36,
        sample_rate <= u32::MAX / 2,
    ensures
        header@ == spec_wav_header(data_size, sample_rate),
        header@.len() == 44,
{
    let mut header: Vec<u8> = Vec::new();
    header.push(0x52);
    header.push(0x49);
    header.push(0x46);
    header.push(0x46);
    push_le32(&mut header, 36 + data_size);
    header.push(0x57);
    header.push(0x41);
    header.push(0x56);
    header.push(0x45);
    header.push(0x66);
    header.push(0x6D);
    header.push(0x74);
    header.push(0x20);
    push_le32(&mut header, 16);
    push_le16(&mut header, 1);
    push_le16(&mut header, 1);
    push_le32(&mut header, sample_rate);
    push_le32(&mut header, sample_rate * 2);
    push_le16(&mut header, 2);
    push_le16(&mut header, 16);
    header.push(0x64);
    header.push(0x61);
    header.push(0x74);
    header.push(0x61);
    push_le32(&mut header, data_size);
    assert(header@ =~= spec_wav_header(data_size, sample_rate));
    header
}

/// The full byte image of a WAV file for the recorded samples: the header,
/// then the samples unchanged.  The application writes these bytes to
/// storage as they are.
#[verifier::loop_isolation(false)]
pub fn wav_file_bytes(audio_data: &Vec<u8>, sample_rate: u32) -> (file: Vec<u8>)
    requires
        audio_data@.len() <= u32::MAX - 36,
        sample_rate <= u32::MAX / 2,
    ensures
        file@ == spec_wav_header(audio_data@.len() as u32, sample_rate) + audio_data@,
{
    let data_size = audio_data.len() as u32;
    let mut file = wav_header(data_size, sample_rate);
    let ghost header_bytes = file@;
    let mut i: usize = 0;
    while i < audio_data.len()
        invariant
            i <= audio_data@.len(),
            file@ == header_bytes + audio_data@.take(i as int),
        decreases audio_data@.len() - i,
    {
        file.push(audio_data[i]);
        assert(file@ =~= header_bytes + audio_data@.take(i + 1));
        i = i + 1;
    }
    assert(file@ =~= header_bytes + audio_data@);
    file
}

} // verus!
