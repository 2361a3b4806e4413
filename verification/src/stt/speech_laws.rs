//! From a recording to a transcript: which parts of it count.
use crate::stt;
use crate::stt::decode;
use crate::stt::decode::{
    ChosenTrack, PacketAction, PacketDecode, PacketRead, PacketView, SampleCollector, Track,
};
use crate::stt::punctuation;
use crate::stt::transcriber;
use crate::stt::transcriber::TranscriberConfig;
use crate::stt::Error;
use crate::text;
use crate::text_laws;
use vstd::prelude::*;

verus! {

// Recordings.

/// Two formats are read: one under one name, one under two.
pub proof fn law_formats(mime_type: Seq<char>)
    ensures
        decode::format_extension(mime_type) == Some("webm"@) <==> mime_type == "audio/webm"@,
        decode::format_extension(mime_type) == Some("wav"@) <==> mime_type == "audio/wav"@
            || mime_type == "audio/wave"@,
        decode::format_extension(mime_type) is None <==> mime_type != "audio/webm"@ && mime_type
            != "audio/wav"@ && mime_type != "audio/wave"@,
{
    reveal_strlit("webm");
    reveal_strlit("wav");
    assert("webm"@.len() == 4 && "wav"@.len() == 3);
    reveal_strlit("audio/webm");
    reveal_strlit("audio/wav");
    reveal_strlit("audio/wave");
    assert("audio/webm"@.len() == 10 && "audio/wav"@.len() == 9 && "audio/wave"@.len() == 10);
    assert("audio/webm"@[7] == 'e' && "audio/wave"@[7] == 'a');
}

/// The first track that has samples is the one that is read.
pub proof fn law_first_track_with_samples(tracks: Seq<Track>)
    ensures
        0 <= decode::first_audio(tracks) <= tracks.len(),
        forall|k: int|
            0 <= k < decode::first_audio(tracks) ==> !(#[trigger] tracks[k]).has_codec,
        decode::first_audio(tracks) < tracks.len() ==> tracks[decode::first_audio(
            tracks,
        )].has_codec,
    decreases tracks.len(),
{
    if tracks.len() > 0 && !tracks[0].has_codec {
        let rest = tracks.drop_first();
        law_first_track_with_samples(rest);
        assert forall|k: int| 0 <= k < decode::first_audio(tracks) implies !(
        #[trigger] tracks[k]).has_codec by {
            if k > 0 {
                assert(rest[k - 1] == tracks[k]);
            }
        }
    }
}

/// The samples of a packet follow those before; a packet without samples adds none.
pub proof fn law_samples_follow<T>(samples: Seq<T>, decoded: PacketDecode<T>)
    ensures
        decoded matches PacketDecode::Samples(s) ==> decode::with_decoded(samples, decoded)
            == samples + s@,
        !(decoded is Samples) ==> decode::with_decoded(samples, decoded) == samples,
{
}

/// What is collected from two lists of packets, one behind the other, is what is
/// collected from the one and then from the other.
pub proof fn law_packets_together<T>(track_id: u32, a: Seq<PacketView<T>>, b: Seq<PacketView<T>>)
    ensures
        decode::collected(track_id, a + b) == decode::collected(track_id, a) + decode::collected(
            track_id,
            b,
        ),
    decreases b.len(),
{
    if b.len() == 0 {
        assert(a + b =~= a);
        assert(decode::collected(track_id, a) + decode::collected(track_id, b)
            =~= decode::collected(track_id, a));
    } else {
        law_packets_together(track_id, a, b.drop_last());
        assert((a + b).drop_last() =~= a + b.drop_last());
        assert((a + b).last() == b.last());
        assert(decode::collected(track_id, a + b) =~= decode::collected(track_id, a)
            + decode::collected(track_id, b));
    }
}

/// From one packet its samples are collected if it is of the track, and nothing else.
pub proof fn law_one_packet<T>(track_id: u32, p: PacketView<T>)
    ensures
        p.track_id == track_id && p.decoded is Samples ==> decode::collected(track_id, seq![p])
            == p.decoded->Samples_0@,
        p.track_id != track_id || !(p.decoded is Samples) ==> decode::collected(
            track_id,
            seq![p],
        ).len() == 0,
{
    assert(seq![p].drop_last() =~= seq![]);
    assert(seq![p].last() == p);
    assert(decode::collected(track_id, Seq::<PacketView<T>>::empty()) =~= seq![]);
    if p.track_id == track_id && p.decoded is Samples {
        assert(decode::collected(track_id, seq![p]) =~= p.decoded->Samples_0@);
    }
}

proof fn lemma_frame_bounds(n: int, w: int, i: int)
    by (nonlinear_arith)
    requires
        w > 0,
        n >= 0,
        0 <= i < (n + w - 1) / w,
    ensures
        0 <= i * w < n,
{
    let q = (n + w - 1) / w;
    assert(q * w <= n + w - 1);
    assert(i * w <= (q - 1) * w);
    assert((q - 1) * w == q * w - w);
}

/// No frame is empty, none has more samples than there are channels, and only the last
/// may have fewer.
pub proof fn law_lengths_of_frames<T>(samples: Seq<T>, channels: int, i: int)
    requires
        channels > 0,
        0 <= i < decode::frame_count(samples.len(), channels as nat),
    ensures
        0 < decode::frame(samples, channels, i).len() <= channels,
        i < decode::frame_count(samples.len(), channels as nat) - 1 ==> decode::frame(
            samples,
            channels,
            i,
        ).len() == channels,
{
    let n = samples.len() as int;
    lemma_frame_bounds(n, channels, i);
    if i < decode::frame_count(samples.len(), channels as nat) - 1 {
        lemma_frame_bounds(n, channels, i + 1);
        assert((i + 1) * channels == i * channels + channels) by (nonlinear_arith);
    }
}

// Chunks.

/// A chunk has as many samples as 560 milliseconds have at 16 kilohertz.
pub proof fn law_length_of_a_chunk<T>(samples: Seq<T>, i: int, filler: T)
    ensures
        transcriber::CHUNK_SAMPLES * 1_000 == 560 * 16_000,
        transcriber::chunk(samples, i, filler).len() == transcriber::CHUNK_SAMPLES,
{
}

// Transcripts.

/// A transcript is finished with its spoken punctuation turned into signs, or as it is.
/// Either way nothing but white space at its ends is left out after that.
pub proof fn law_finished_transcripts(transcript: Seq<char>)
    ensures
        ({
            let with = transcriber::finished(transcript, TranscriberConfig { punctuation: true });
            let signs = punctuation::processed(transcript);
            exists|i: int, j: int| #[trigger]
                text_laws::is_spaceless_core(signs, with, i, j)
        }),
        ({
            let without = transcriber::finished(
                transcript,
                TranscriberConfig { punctuation: false },
            );
            exists|i: int, j: int| #[trigger]
                text_laws::is_spaceless_core(transcript, without, i, j)
        }),
{
    let signs = punctuation::processed(transcript);
    text_laws::law_trimming_takes_only_white_space(signs);
    text_laws::law_trimming_takes_only_white_space(transcript);
    assert(transcriber::finished(transcript, TranscriberConfig { punctuation: true })
        == text::trimmed(signs));
    assert(transcriber::finished(transcript, TranscriberConfig { punctuation: false })
        == text::trimmed(transcript));
}

/// An error is told with what failed and why.
pub proof fn law_errors_are_told(e: Error)
    ensures
        match e {
            Error::ModelLoad(why) => stt::error_text(e) == "Failed to load model: "@ + why@,
            Error::AudioDecode(why) => stt::error_text(e) == "Failed to decode audio: "@ + why@,
            Error::Transcribe(why) => stt::error_text(e) == "Failed to transcribe: "@ + why@,
            Error::UnsupportedFormat(why) => stt::error_text(e) == "Unsupported audio format: "@
                + why@,
            Error::Io(why) => stt::error_text(e) == "IO error: "@ + why@,
        },
{
}

// Steps.

/// The first track with samples is chosen if its rate is known. Without a number of
/// channels it has one.
pub proof fn law_chosen_track(tracks: &Vec<Track>, r: Result<ChosenTrack, Error>, i: int)
    requires
        call_ensures(decode::choose_track, (tracks,), r),
        0 <= i <= tracks@.len(),
        forall|k: int| 0 <= k < i ==> !(#[trigger] tracks@[k]).has_codec,
        i < tracks@.len() ==> tracks@[i].has_codec,
    ensures
        r is Ok <==> i < tracks@.len() && tracks@[i].sample_rate is Some,
        r matches Ok(c) ==> {
            &&& c.index == i
            &&& c.id == tracks@[i].id
            &&& c.sample_rate == tracks@[i].sample_rate->0
            &&& tracks@[i].channels is Some ==> c.channels == tracks@[i].channels->0
            &&& tracks@[i].channels is None ==> c.channels == 1
        },
        i == tracks@.len() ==> r->Err_0 is AudioDecode && r->Err_0->AudioDecode_0@
            == "No audio track found"@,
        i < tracks@.len() && r is Err ==> r->Err_0 is AudioDecode && r->Err_0->AudioDecode_0@
            == "Unknown sample rate"@,
{
    law_first_track_with_samples(tracks@);
    let n = decode::first_audio(tracks@);
    if n < i {
        assert(!tracks@[n].has_codec);
    } else if i < n {
        assert(!tracks@[i].has_codec);
    }
}

/// Packets of the track are decoded, others are passed over, and an error ends it.
pub proof fn law_packets_are_sorted<T>(c: &SampleCollector<T>, read: PacketRead, r: PacketAction)
    requires
        call_ensures(SampleCollector::<T>::on_packet, (c, read), r),
    ensures
        r is Decode <==> read is Packet && read->track_id == c.track_id,
        r is Read <==> read is Packet && read->track_id != c.track_id,
        r is Stop <==> read is End,
        r is Fail <==> read is Failed,
        r is Fail ==> r->Fail_0 is AudioDecode && r->Fail_0->AudioDecode_0@
            == "Failed to read packet: "@ + read->Failed_0@,
{
}

/// Samples are collected behind those before, and everything else leaves them. Only an
/// error ends it.
pub proof fn law_samples_are_collected<T>(
    c: &mut SampleCollector<T>,
    decoded: PacketDecode<T>,
    r: PacketAction,
)
    requires
        call_ensures(SampleCollector::<T>::on_decoded, (c, decoded), r),
    ensures
        final(c).track_id == old(c).track_id,
        decoded is Samples ==> final(c).samples@ == old(c).samples@ + decoded->Samples_0@,
        !(decoded is Samples) ==> final(c).samples@ == old(c).samples@,
        r is Read <==> !(decoded is Failed),
        r is Fail <==> decoded is Failed,
        r is Fail ==> r->Fail_0 is AudioDecode && r->Fail_0->AudioDecode_0@
            == "Failed to decode packet: "@ + decoded->Failed_0@,
{
}

/// A recording is heard if it is at most a hundred hertz off sixteen kilohertz.
pub proof fn law_sample_rates(sample_rate: u32, r: Result<(), Error>)
    requires
        call_ensures(transcriber::check_sample_rate, (sample_rate,), r),
    ensures
        r is Ok <==> -100 <= sample_rate - 16_000 <= 100,
        r is Err ==> r->Err_0 is AudioDecode && r->Err_0->AudioDecode_0@
            == "Audio must be 16kHz, got "@ + text::decimal(sample_rate as nat)
            + "Hz. Please resample client-side."@,
{
}

} // verus!
