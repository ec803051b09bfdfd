//! Audio payload handling around the transports: conversion between raw
//! bytes and their transportable text form (through the `base64` crate,
//! behind trusted items), and the duration bookkeeping that decides whether
//! a recording is sent, trimmed, or rejected.
//!
//! Durations are integer milliseconds here; presentation in seconds is the
//! host application's.

use vstd::prelude::*;

use base64::Engine;

verus! {

/// Raw audio is 16-bit mono at 16 kHz, so fifteen seconds is exactly this
/// many bytes.
pub const MAX_AUDIO_BYTES: usize = 480000;

/// The longest recording accepted, in milliseconds.
pub const MAX_AUDIO_MILLIS: u64 = 15000;

/// Bytes per sample of the raw audio.
pub const BYTES_PER_SAMPLE: u64 = 2;

/// Sample rate of the raw audio, in hertz.
pub const PCM_SAMPLE_RATE: u32 = 16000;

/// What the `base64` crate's standard encoding produces from these bytes.
pub uninterp spec fn base64_of(bytes: Seq<u8>) -> Seq<char>;

/// What the `base64` crate's standard decoding makes of this text: the
/// bytes, or nothing where the text is not valid standard base64.
pub uninterp spec fn base64_decode_of(text: Seq<char>) -> Option<Seq<u8>>;

/// The duration of raw audio in milliseconds: `len / BYTES_PER_SAMPLE`
/// samples at `rate` samples per second.
pub open spec fn duration_millis_of(len: int, rate: int) -> int
    recommends
        rate > 0,
{
    len * 500 / rate
}

/// What the host hands in for a transcription: the recording in its
/// transportable text form, and its container format.
pub struct AudioTranscribeInput {
    pub audio_base64: String,
    pub format: String,
}

/// A recording's bookkeeping at the fixed raw format.
pub struct AudioInfo {
    pub duration_millis: u64,
    pub size_bytes: usize,
    pub exceeds_limit: bool,
    pub max_duration_millis: u64,
}

/// What becomes of a recording about to be transcribed.
pub enum TranscribePlan {
    /// Send this audio; `was_trimmed` says whether it was cut to the limit.
    Ready { audio: Vec<u8>, was_trimmed: bool },
    /// Reject the recording: too long, and trimming was not allowed.
    TooLong { duration_millis: u64, max_duration_millis: u64 },
}

/// Stateless helper around audio payloads.
pub struct AudioProcessor;

impl AudioProcessor {
    pub fn new() -> (r: Self) {
        AudioProcessor
    }

    /// The duration of raw audio in milliseconds.
    pub fn calculate_duration_millis(audio_data: &[u8], sample_rate: u32) -> (ms: u64)
        requires
            sample_rate > 0,
            audio_data@.len() * 500 <= u64::MAX,
        ensures
            ms == duration_millis_of(audio_data@.len() as int, sample_rate as int),
    {
        (audio_data.len() as u64 * 500) / (sample_rate as u64)
    }

    /// Whether the recording is longer than the accepted maximum.
    pub fn exceeds_limit(audio_data: &[u8]) -> (b: bool)
        ensures
            b == (audio_data@.len() > MAX_AUDIO_BYTES),
    {
        audio_data.len() > MAX_AUDIO_BYTES
    }

    /// The recording unchanged where it fits the limit, else its first
    /// fifteen seconds.
    pub fn trim_to_max_duration(audio_data: &[u8]) -> (r: Vec<u8>)
        ensures
            r@ == if audio_data@.len() <= MAX_AUDIO_BYTES {
                audio_data@
            } else {
                audio_data@.subrange(0, MAX_AUDIO_BYTES as int)
            },
    {
        if audio_data.len() <= MAX_AUDIO_BYTES {
            vstd::slice::slice_to_vec(audio_data)
        } else {
            let head = vstd::slice::slice_subrange(audio_data, 0, MAX_AUDIO_BYTES);
            vstd::slice::slice_to_vec(head)
        }
    }

    /// Relies on `base64`'s standard engine `encode`: the result is a
    /// function of the bytes alone.
    #[verifier::external_body]
    pub fn encode_base64(audio_data: &[u8]) -> (r: String)
        ensures
            r@ == base64_of(audio_data@),
    {
        base64::engine::general_purpose::STANDARD.encode(audio_data)
    }

    /// Relies on `base64`'s standard engine `decode`: success and result
    /// are a function of the text alone; the error case carries the
    /// crate's own message.
    #[verifier::external_body]
    pub fn decode_base64(base64_data: &str) -> (r: Result<Vec<u8>, String>)
        ensures
            match r {
                Ok(v) => base64_decode_of(base64_data@) == Some(v@),
                Err(_) => base64_decode_of(base64_data@) is None,
            },
    {
        base64::engine::general_purpose::STANDARD.decode(base64_data).map_err(|e| e.to_string())
    }

    /// The recording's bookkeeping: duration, size, and whether it exceeds
    /// the accepted maximum.
    pub fn get_audio_info(audio_data: &[u8]) -> (info: AudioInfo)
        requires
            audio_data@.len() * 500 <= u64::MAX,
        ensures
            info.duration_millis == duration_millis_of(
                audio_data@.len() as int,
                PCM_SAMPLE_RATE as int,
            ),
            info.size_bytes == audio_data@.len(),
            info.exceeds_limit == (audio_data@.len() > MAX_AUDIO_BYTES),
            info.max_duration_millis == MAX_AUDIO_MILLIS,
    {
        AudioInfo {
            duration_millis: Self::calculate_duration_millis(audio_data, PCM_SAMPLE_RATE),
            size_bytes: audio_data.len(),
            exceeds_limit: Self::exceeds_limit(audio_data),
            max_duration_millis: MAX_AUDIO_MILLIS,
        }
    }
}

/// Decides what happens to a recording about to be transcribed: within the
/// limit it goes out unchanged; over the limit it is trimmed to the limit
/// where trimming is allowed, else rejected with its duration.
pub fn plan_transcription(audio: Vec<u8>, trim_if_needed: bool) -> (p: TranscribePlan)
    requires
        audio@.len() * 500 <= u64::MAX,
    ensures
        ({
            let len = audio@.len();
            if len <= MAX_AUDIO_BYTES {
                p matches TranscribePlan::Ready { audio: a, was_trimmed } && a@ == audio@
                    && !was_trimmed
            } else if trim_if_needed {
                p matches TranscribePlan::Ready { audio: a, was_trimmed } && a@ == audio@.subrange(
                    0,
                    MAX_AUDIO_BYTES as int,
                ) && was_trimmed
            } else {
                p matches TranscribePlan::TooLong { duration_millis, max_duration_millis }
                    && duration_millis == duration_millis_of(len as int, PCM_SAMPLE_RATE as int)
                    && max_duration_millis == MAX_AUDIO_MILLIS
            }
        }),
{
    if audio.len() <= MAX_AUDIO_BYTES {
        TranscribePlan::Ready { audio, was_trimmed: false }
    } else if trim_if_needed {
        let trimmed = AudioProcessor::trim_to_max_duration(audio.as_slice());
        TranscribePlan::Ready { audio: trimmed, was_trimmed: true }
    } else {
        let duration = AudioProcessor::calculate_duration_millis(audio.as_slice(), PCM_SAMPLE_RATE);
        TranscribePlan::TooLong { duration_millis: duration, max_duration_millis: MAX_AUDIO_MILLIS }
    }
}

} // verus!
