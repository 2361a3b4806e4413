//! From the bytes of a recording to its samples: which track is read, and which
//! packets count.
use crate::stt::Error;
use crate::text;
use vstd::prelude::*;

verus! {

/// The samples of a recording, with the channels interleaved.
pub struct DecodedAudio<T> {
    pub samples: Vec<T>,
    pub sample_rate: u32,
    pub channels: u16,
}

/// The file extension that hints at the format of a recording.
pub open spec fn format_extension(mime_type: Seq<char>) -> Option<Seq<char>> {
    if mime_type == "audio/webm"@ {
        Some("webm"@)
    } else if mime_type == "audio/wav"@ || mime_type == "audio/wave"@ {
        Some("wav"@)
    } else {
        None
    }
}

/// The hint at the format of a recording. Only two formats are read.
pub fn format_hint(mime_type: &str) -> (r: Result<&'static str, Error>)
    ensures
        match (format_extension(mime_type@), r) {
            (Some(e), Ok(hint)) => hint@ == e,
            (None, Err(why)) => {
                &&& why matches Error::UnsupportedFormat(t)
                &&& t@ == mime_type@ + ". Only audio/wav and audio/webm are supported."@
            },
            _ => false,
        },
{
    if text::same(mime_type, "audio/webm") {
        Ok("webm")
    } else if text::same(mime_type, "audio/wav") || text::same(mime_type, "audio/wave") {
        Ok("wav")
    } else {
        Err(
            Error::UnsupportedFormat(
                text::concat(mime_type, ". Only audio/wav and audio/webm are supported."),
            ),
        )
    }
}

/// A track of a recording, as its container describes it.
pub struct Track {
    pub id: u32,
    /// The track has samples to decode.
    pub has_codec: bool,
    pub sample_rate: Option<u32>,
    pub channels: Option<u16>,
}

/// The track that is read.
#[derive(Debug, Clone, Copy, PartialEq, Eq, Structural)]
pub struct ChosenTrack {
    pub index: usize,
    pub id: u32,
    pub sample_rate: u32,
    pub channels: u16,
}

/// The position of the first track with samples, or the number of tracks.
pub open spec fn first_audio(tracks: Seq<Track>) -> int
    decreases tracks.len(),
{
    if tracks.len() == 0 || tracks[0].has_codec {
        0
    } else {
        1 + first_audio(tracks.drop_first())
    }
}

/// Chooses the first track with samples. Its rate has to be known; without a number
/// of channels it has one.
pub fn choose_track(tracks: &Vec<Track>) -> (r: Result<ChosenTrack, Error>)
    ensures
        ({
            let i = first_audio(tracks@);
            match r {
                Ok(c) => {
                    &&& i < tracks@.len()
                    &&& c.index == i
                    &&& c.id == tracks@[i].id
                    &&& tracks@[i].sample_rate == Some(c.sample_rate)
                    &&& c.channels == (match tracks@[i].channels {
                        Some(n) => n,
                        None => 1,
                    })
                },
                Err(why) => {
                    &&& why matches Error::AudioDecode(t)
                    &&& if i == tracks@.len() {
                        t@ == "No audio track found"@
                    } else {
                        tracks@[i].sample_rate is None && t@ == "Unknown sample rate"@
                    }
                },
            }
        }),
{
    let mut i: usize = 0;
    assert(tracks@.skip(0) == tracks@);
    while i < tracks.len()
        invariant
            i <= tracks@.len(),
            first_audio(tracks@) == i + first_audio(tracks@.skip(i as int)),
        decreases tracks@.len() - i,
    {
        assert(tracks@.skip(i as int).drop_first() == tracks@.skip(i as int + 1));
        if tracks[i].has_codec {
            let channels: u16 = match tracks[i].channels {
                Some(n) => n,
                None => 1,
            };
            return match tracks[i].sample_rate {
                Some(sample_rate) => Ok(
                    ChosenTrack { index: i, id: tracks[i].id, sample_rate, channels },
                ),
                None => Err(Error::AudioDecode("Unknown sample rate".to_owned())),
            };
        }
        i += 1;
    }
    Err(Error::AudioDecode("No audio track found".to_owned()))
}

/// What reading a packet gave.
pub enum PacketRead {
    /// A packet of a track.
    Packet { track_id: u32 },
    /// The end of the recording.
    End,
    /// An error.
    Failed(String),
}

/// What decoding a packet gave.
pub enum PacketDecode<T> {
    Samples(Vec<T>),
    /// A packet that is malformed and passed over.
    Malformed,
    /// An error.
    Failed(String),
}

/// The samples once a packet is decoded: those of the packet follow those before.
pub open spec fn with_decoded<T>(samples: Seq<T>, decoded: PacketDecode<T>) -> Seq<T> {
    match decoded {
        PacketDecode::Samples(s) => samples + s@,
        _ => samples,
    }
}

/// What follows a packet.
pub enum PacketAction {
    /// Read the next packet.
    Read,
    /// Decode this packet.
    Decode,
    /// All packets are read.
    Stop,
    /// Give up.
    Fail(Error),
}

/// The samples collected so far from one track.
pub struct SampleCollector<T> {
    pub track_id: u32,
    pub samples: Vec<T>,
}

impl<T> SampleCollector<T> {
    /// No samples yet.
    pub fn new(track_id: u32) -> (r: Self)
        ensures
            r.track_id == track_id,
            r.samples@.len() == 0,
    {
        SampleCollector { track_id, samples: Vec::new() }
    }

    /// Takes what reading a packet gave: packets of other tracks are passed over.
    pub fn on_packet(&self, read: PacketRead) -> (r: PacketAction)
        ensures
            match read {
                PacketRead::Packet { track_id } => if track_id == self.track_id {
                    r is Decode
                } else {
                    r is Read
                },
                PacketRead::End => r is Stop,
                PacketRead::Failed(why) => {
                    &&& r matches PacketAction::Fail(e)
                    &&& e matches Error::AudioDecode(t)
                    &&& t@ == "Failed to read packet: "@ + why@
                },
            },
    {
        match read {
            PacketRead::Packet { track_id } => {
                if track_id == self.track_id {
                    PacketAction::Decode
                } else {
                    PacketAction::Read
                }
            },
            PacketRead::End => PacketAction::Stop,
            PacketRead::Failed(why) => PacketAction::Fail(
                Error::AudioDecode(text::concat("Failed to read packet: ", why.as_str())),
            ),
        }
    }

    /// Takes what decoding a packet gave: its samples follow those before.
    pub fn on_decoded(&mut self, decoded: PacketDecode<T>) -> (r: PacketAction)
        ensures
            final(self).track_id == old(self).track_id,
            final(self).samples@ == with_decoded(old(self).samples@, decoded),
            match decoded {
                PacketDecode::Samples(_) => r is Read,
                PacketDecode::Malformed => r is Read,
                PacketDecode::Failed(why) => {
                    &&& r matches PacketAction::Fail(e)
                    &&& e matches Error::AudioDecode(t)
                    &&& t@ == "Failed to decode packet: "@ + why@
                },
            },
    {
        match decoded {
            PacketDecode::Samples(s) => {
                let mut s = s;
                self.samples.append(&mut s);
                PacketAction::Read
            },
            PacketDecode::Malformed => PacketAction::Read,
            PacketDecode::Failed(why) => PacketAction::Fail(
                Error::AudioDecode(text::concat("Failed to decode packet: ", why.as_str())),
            ),
        }
    }

    /// The recording.
    pub fn finish(self, track: ChosenTrack) -> (r: DecodedAudio<T>)
        ensures
            r.samples == self.samples,
            r.sample_rate == track.sample_rate,
            r.channels == track.channels,
    {
        DecodedAudio {
            samples: self.samples,
            sample_rate: track.sample_rate,
            channels: track.channels,
        }
    }
}

/// The error of a recording whose format is not recognised.
pub fn probe_error(why: &str) -> (r: Error)
    ensures
        r matches Error::AudioDecode(t) && t@ == "Failed to probe format: "@ + why@,
{
    Error::AudioDecode(text::concat("Failed to probe format: ", why))
}

/// The error of a track that nothing here decodes.
pub fn decoder_error(why: &str) -> (r: Error)
    ensures
        r matches Error::AudioDecode(t) && t@ == "Failed to create decoder: "@ + why@,
{
    Error::AudioDecode(text::concat("Failed to create decoder: ", why))
}

/// The number of frames in interleaved samples; the last may be short.
pub open spec fn frame_count(len: nat, channels: nat) -> nat {
    if channels == 0 {
        0
    } else {
        ((len + channels - 1) / channels as int) as nat
    }
}

/// The samples of a frame.
pub open spec fn frame<T>(samples: Seq<T>, channels: int, i: int) -> Seq<T> {
    let from = i * channels;
    let to = if from + channels <= samples.len() {
        from + channels
    } else {
        samples.len() as int
    };
    samples.subrange(from, to)
}

/// The frames of interleaved samples, one sample of each channel to a frame. There
/// has to be a channel.
pub fn frames<T: Copy>(samples: &Vec<T>, channels: u16) -> (r: Vec<Vec<T>>)
    requires
        channels > 0,
    ensures
        r@.len() == frame_count(samples@.len(), channels as nat),
        forall|i: int|
            0 <= i < r@.len() ==> #[trigger] r@[i]@ == frame(samples@, channels as int, i),
{
    let n: usize = samples.len();
    let width: usize = channels as usize;
    let mut out: Vec<Vec<T>> = Vec::new();
    let mut at: usize = 0;
    proof {
        assert(0 * width == 0) by (nonlinear_arith);
        assert((channels - 1) / channels as int == 0) by (nonlinear_arith)
            requires
                channels > 0,
        ;
    }
    while at < n
        invariant
            n == samples@.len(),
            width == channels,
            channels > 0,
            at <= n,
            at < n ==> at == out@.len() * width,
            at == n ==> out@.len() == frame_count(n as nat, channels as nat),
            forall|i: int|
                0 <= i < out@.len() ==> #[trigger] out@[i]@ == frame(samples@, channels as int, i),
        decreases n - at,
    {
        let to: usize = if n - at <= width {
            n
        } else {
            at + width
        };
        let mut f: Vec<T> = Vec::new();
        let mut k: usize = at;
        while k < to
            invariant
                at <= k <= to <= n,
                n == samples@.len(),
                f@ == samples@.subrange(at as int, k as int),
            decreases to - k,
        {
            f.push(samples[k]);
            k += 1;
            assert(f@ =~= samples@.subrange(at as int, k as int));
        }
        let ghost count = out@.len() as int;
        assert(f@ =~= frame(samples@, channels as int, count));
        out.push(f);
        proof {
            if to == n {
                lemma_last_frame(n as int, width as int, count);
            } else {
                assert((count + 1) * width == count * width + width) by (nonlinear_arith);
            }
        }
        at = to;
    }
    out
}

proof fn lemma_last_frame(n: int, w: int, count: int)
    by (nonlinear_arith)
    requires
        w > 0,
        count >= 0,
        count * w < n <= count * w + w,
    ensures
        (n + w - 1) / w == count + 1,
{
    let m = n + w - 1;
    assert(m - (count + 1) * w >= 0);
    assert(m - (count + 1) * w < w);
    assert(m == (count + 1) * w + (m - (count + 1) * w));
    assert(m / w == count + 1);
}

// Laws.

/// Every sample is in a frame: the frames hold the samples in order, as many as
/// there are channels in each but the last.
pub proof fn law_frames_hold_the_samples<T>(samples: Seq<T>, channels: int, p: int)
    requires
        channels > 0,
        0 <= p < samples.len(),
    ensures
        0 <= p / channels < frame_count(samples.len(), channels as nat),
        0 <= p % channels < frame(samples, channels, p / channels).len(),
        frame(samples, channels, p / channels)[p % channels] == samples[p],
{
    let n = samples.len() as int;
    let i = p / channels;
    vstd::arithmetic::div_mod::lemma_fundamental_div_mod(p, channels);
    assert(i * channels == channels * i) by (nonlinear_arith);
    assert(i >= 0) by {
        vstd::arithmetic::div_mod::lemma_div_pos_is_pos(p, channels);
    }
    assert(i * channels >= 0) by (nonlinear_arith)
        requires
            i >= 0,
            channels > 0,
    ;
    assert(p / channels < (n + channels - 1) / channels) by {
        vstd::arithmetic::div_mod::lemma_div_is_ordered(p + channels, n + channels - 1, channels);
        vstd::arithmetic::div_mod::lemma_div_plus_one(p, channels);
    }
}

/// A packet as it is read and decoded: its track, and what decoding it gives.
pub struct PacketView<T> {
    pub track_id: u32,
    pub decoded: PacketDecode<T>,
}

/// The samples collected from the packets of a track: [`SampleCollector::on_packet`]
/// has no other packets decoded.
pub open spec fn collected<T>(track_id: u32, packets: Seq<PacketView<T>>) -> Seq<T>
    decreases packets.len(),
{
    if packets.len() == 0 {
        seq![]
    } else {
        let before = collected(track_id, packets.drop_last());
        if packets.last().track_id == track_id {
            with_decoded(before, packets.last().decoded)
        } else {
            before
        }
    }
}

/// The packet brings samples of the track.
pub open spec fn counts<T>(track_id: u32, packet: PacketView<T>) -> bool {
    packet.track_id == track_id && packet.decoded is Samples
}

/// Packets of other tracks and malformed packets do not count: without them the same
/// samples are collected.
pub proof fn law_other_packets_do_not_count<T>(track_id: u32, packets: Seq<PacketView<T>>)
    ensures
        collected(track_id, packets) == collected(
            track_id,
            packets.filter(|p: PacketView<T>| counts(track_id, p)),
        ),
    decreases packets.len(),
{
    reveal(Seq::filter);
    let wanted = |p: PacketView<T>| counts(track_id, p);
    if packets.len() > 0 {
        law_other_packets_do_not_count(track_id, packets.drop_last());
        let before = packets.drop_last().filter(wanted);
        if wanted(packets.last()) {
            assert(before.push(packets.last()).drop_last() =~= before);
        }
    }
}

} // verus!
