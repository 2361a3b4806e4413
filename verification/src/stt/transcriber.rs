//! From samples to text: what the model is given, and what becomes of its words.
use crate::stt::punctuation;
use crate::stt::Error;
use crate::text;
use vstd::prelude::*;

verus! {

/// The number of samples that the model takes at a time: 560 milliseconds at 16
/// kilohertz.
pub const CHUNK_SAMPLES: usize = 8_960;

/// How speech is recognised.
#[derive(Debug, Clone, Copy, PartialEq, Eq, Structural)]
pub struct TranscriberConfig {
    /// Spoken punctuation is turned into signs.
    pub punctuation: bool,
}

impl Default for TranscriberConfig {
    fn default() -> (r: Self)
        ensures
            r.punctuation,
    {
        TranscriberConfig { punctuation: true }
    }
}

/// The error of a model that cannot be loaded.
pub fn model_error(why: &str) -> (r: Error)
    ensures
        r matches Error::ModelLoad(t) && t@ == why@,
{
    Error::ModelLoad(why.to_owned())
}

/// The error of a chunk that the model does not take.
pub fn chunk_error(why: &str) -> (r: Error)
    ensures
        r matches Error::Transcribe(t) && t@ == why@,
{
    Error::Transcribe(why.to_owned())
}

/// Checks the rate of a recording: 16 kilohertz, or a little off.
pub fn check_sample_rate(sample_rate: u32) -> (r: Result<(), Error>)
    ensures
        match r {
            Ok(_) => 15_900 <= sample_rate <= 16_100,
            Err(why) => {
                &&& !(15_900 <= sample_rate <= 16_100)
                &&& why matches Error::AudioDecode(t)
                &&& t@ == "Audio must be 16kHz, got "@ + text::decimal(sample_rate as nat)
                    + "Hz. Please resample client-side."@
            },
        },
{
    if sample_rate < 15_900 || sample_rate > 16_100 {
        Err(
            Error::AudioDecode(
                text::concat_three(
                    "Audio must be 16kHz, got ",
                    text::decimal_text(sample_rate as u64).as_str(),
                    "Hz. Please resample client-side.",
                ),
            ),
        )
    } else {
        Ok(())
    }
}

/// The number of chunks of a recording.
pub open spec fn chunk_total(len: nat) -> nat {
    (len + CHUNK_SAMPLES as nat - 1) as nat / CHUNK_SAMPLES as nat
}

/// The number of chunks of a recording.
pub fn chunk_count(len: usize) -> (r: usize)
    ensures
        r == chunk_total(len as nat),
{
    if len % CHUNK_SAMPLES == 0 {
        len / CHUNK_SAMPLES
    } else {
        len / CHUNK_SAMPLES + 1
    }
}

/// A chunk of a recording, filled up behind its end.
pub open spec fn chunk<T>(samples: Seq<T>, i: int, filler: T) -> Seq<T> {
    Seq::new(
        CHUNK_SAMPLES as nat,
        |k: int|
            if i * CHUNK_SAMPLES + k < samples.len() {
                samples[i * CHUNK_SAMPLES + k]
            } else {
                filler
            },
    )
}

/// A chunk of a recording, filled up behind its end.
pub fn padded_chunk<T: Copy>(samples: &Vec<T>, i: usize, filler: T) -> (r: Vec<T>)
    requires
        i * CHUNK_SAMPLES < samples@.len(),
    ensures
        r@ == chunk(samples@, i as int, filler),
{
    let n: usize = samples.len();
    let from: usize = i * CHUNK_SAMPLES;
    let mut out: Vec<T> = Vec::new();
    while out.len() < CHUNK_SAMPLES
        invariant
            n == samples@.len(),
            from == i * CHUNK_SAMPLES,
            from < n,
            out@.len() <= CHUNK_SAMPLES,
            forall|k: int|
                0 <= k < out@.len() ==> #[trigger] out@[k] == chunk(samples@, i as int, filler)[k],
        decreases CHUNK_SAMPLES - out@.len(),
    {
        let k: usize = out.len();
        if k < n - from {
            out.push(samples[from + k]);
        } else {
            out.push(filler);
        }
    }
    assert(out@ =~= chunk(samples@, i as int, filler));
    out
}

/// What a transcript comes to: with the spoken punctuation turned into signs if
/// that is wanted, and without white space at its ends.
pub open spec fn finished(transcript: Seq<char>, config: TranscriberConfig) -> Seq<char> {
    if config.punctuation {
        text::trimmed(punctuation::processed(transcript))
    } else {
        text::trimmed(transcript)
    }
}

/// What a transcript comes to.
pub fn finish_transcript(transcript: &str, config: TranscriberConfig) -> (r: String)
    ensures
        r@ == finished(transcript@, config),
{
    if config.punctuation {
        let p = punctuation::process(transcript);
        text::trim_text(p.as_str())
    } else {
        text::trim_text(transcript)
    }
}

/// The chunks of a recording hold its samples in order, and fillers behind its end.
pub proof fn law_chunks_hold_the_recording<T>(samples: Seq<T>, filler: T, p: int)
    requires
        0 <= p < chunk_total(samples.len()) * CHUNK_SAMPLES,
    ensures
        0 <= p / CHUNK_SAMPLES as int,
        (p / CHUNK_SAMPLES as int) < chunk_total(samples.len()),
        chunk(samples, p / CHUNK_SAMPLES as int, filler)[p % CHUNK_SAMPLES as int] == if p
            < samples.len() {
            samples[p]
        } else {
            filler
        },
{
}

/// Every sample of a recording is in a chunk, and no chunk is made of fillers alone.
pub proof fn law_chunks_cover_the_recording(len: nat)
    ensures
        len <= chunk_total(len) * CHUNK_SAMPLES,
        chunk_total(len) * CHUNK_SAMPLES < len + CHUNK_SAMPLES,
{
}

} // verus!
