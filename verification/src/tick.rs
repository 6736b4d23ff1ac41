//! Voice tick events.
//!
//! A voice tick is an ephemeral event delivered once per server-side
//! mixing interval. It carries a timestamp and, for each currently
//! speaking participant, an optional sequence of decoded PCM samples
//! for that interval. A speaker without decoded audio contributes
//! nothing to the capture for that tick.

use vstd::prelude::*;

verus! {

/// One speaker's contribution to a voice tick: the speaker's identifier
/// and the decoded PCM samples, when decoding produced any.
pub struct SpeakerVoice {
    pub speaker_id: u64,
    pub decoded_voice: Option<Vec<i16>>,
}

/// A voice tick: the event's timestamp in milliseconds and the speakers
/// reported as active for the interval, in iteration order.
pub struct VoiceTick {
    pub timestamp_ms: u64,
    pub speaking: Vec<SpeakerVoice>,
}

/// The samples one speaker contributes: the decoded audio when present,
/// and nothing otherwise.
pub open spec fn speaker_samples(v: SpeakerVoice) -> Seq<i16> {
    match v.decoded_voice {
        Option::Some(decoded) => decoded@,
        Option::None => Seq::empty(),
    }
}

/// All samples a tick contributes: each speaker's decoded audio,
/// concatenated in speaker-iteration order.
pub open spec fn tick_samples(speaking: Seq<SpeakerVoice>) -> Seq<i16>
    decreases speaking.len(),
{
    if speaking.len() == 0 {
        Seq::empty()
    } else {
        tick_samples(speaking.drop_last()) + speaker_samples(speaking.last())
    }
}

/// Appending one speaker to a tick appends that speaker's samples.
pub proof fn lemma_tick_samples_push(speaking: Seq<SpeakerVoice>, v: SpeakerVoice)
    ensures
        tick_samples(speaking.push(v)) == tick_samples(speaking) + speaker_samples(v),
{
    assert(speaking.push(v).drop_last() =~= speaking);
    assert(speaking.push(v).last() == v);
}

impl VoiceTick {
    /// Build a tick with no active speakers.
    pub fn new(timestamp_ms: u64) -> (t: VoiceTick)
        ensures
            t.timestamp_ms == timestamp_ms,
            t.speaking@.len() == 0,
    {
        VoiceTick { timestamp_ms, speaking: Vec::new() }
    }

    /// Record one speaker's contribution for this tick.
    pub fn add_speaker(&mut self, speaker_id: u64, decoded_voice: Option<Vec<i16>>)
        ensures
            final(self).timestamp_ms == old(self).timestamp_ms,
            final(self).speaking@ == old(self).speaking@.push((SpeakerVoice {
                speaker_id,
                decoded_voice,
            })),
    {
        self.speaking.push(SpeakerVoice { speaker_id, decoded_voice });
    }
}

} // verus!
