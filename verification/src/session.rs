//! Capture session state and event handling.
//!
//! A session owns the sample buffer and the timestamp of the last tick
//! that carried audio. Voice events mutate it through [`CaptureSession::handle_event`]:
//! a voice tick appends gap-covering silence and the speakers' decoded
//! samples, a driver disconnect closes the capture and hands the buffer
//! out for archival, and every other event is a no-op.
//!
//! Callers that deliver events concurrently must serialize access to the
//! session (a single mutual-exclusion lock around it suffices); the
//! session itself is purely sequential state. This design assumes the
//! transport delivers ticks in order; a tick whose timestamp lies before
//! the stored one is treated as having no elapsed gap.

use vstd::prelude::*;

use crate::config::Config;
use crate::gap::{append_silence, silence, silence_count, spec_silence_count, GAP_THRESHOLD_MS};
use crate::tick::{lemma_tick_samples_push, tick_samples, VoiceTick};

verus! {

/// The state of one capture session: the encoder configuration chosen at
/// session start, the append-only sample buffer, and the timestamp of
/// the last tick that carried audio (seeded with the capture-start time).
pub struct CaptureSession {
    pub config: Config,
    pub buffer: Vec<i16>,
    pub last_tick_ms: u64,
}

/// A voice event as the session sees it: a voice tick, the driver
/// disconnect that tears the capture down, or any other event, which
/// the session deliberately ignores.
pub enum VoiceEvent {
    Tick(VoiceTick),
    DriverDisconnect,
    Other,
}

/// Milliseconds elapsed between the stored timestamp and a tick's
/// timestamp; an out-of-order tick counts as no elapsed time.
pub open spec fn spec_elapsed_ms(last_ms: int, now_ms: int) -> int {
    if now_ms >= last_ms {
        now_ms - last_ms
    } else {
        0
    }
}

/// The buffer after ingesting one tick: unchanged for an idle tick, and
/// otherwise extended by gap-covering silence followed by the speakers'
/// decoded samples in iteration order.
pub open spec fn spec_ingest_buffer(
    buffer: Seq<i16>,
    last_ms: int,
    tick: VoiceTick,
    sample_rate: int,
) -> Seq<i16> {
    if tick.speaking@.len() == 0 {
        buffer
    } else {
        let gap = spec_silence_count(
            spec_elapsed_ms(last_ms, tick.timestamp_ms as int),
            sample_rate,
        );
        buffer + silence(gap as nat) + tick_samples(tick.speaking@)
    }
}

/// The stored timestamp after ingesting one tick: only a tick that
/// carries audio advances it.
pub open spec fn spec_ingest_last_ms(last_ms: int, tick: VoiceTick) -> int {
    if tick.speaking@.len() == 0 {
        last_ms
    } else {
        tick.timestamp_ms as int
    }
}

/// Append every sample of `src` to `dst`, in order.
fn append_samples(dst: &mut Vec<i16>, src: &Vec<i16>)
    ensures
        final(dst)@ == old(dst)@ + src@,
{
    proof {
        assert(dst@ =~= old(dst)@ + src@.take(0));
    }
    let mut i: usize = 0;
    while i < src.len()
        invariant
            0 <= i <= src@.len(),
            dst@ == old(dst)@ + src@.take(i as int),
        decreases src@.len() - i,
    {
        dst.push(src[i]);
        proof {
            assert(src@.take(i + 1) =~= src@.take(i as int).push(src@[i as int]));
            assert(dst@ =~= old(dst)@ + src@.take(i + 1));
        }
        i = i + 1;
    }
    proof {
        assert(src@.take(src@.len() as int) =~= src@);
    }
}

impl CaptureSession {
    /// Open a capture session: an empty buffer, and the gap clock seeded
    /// with the capture-start time so that the first gap computation is
    /// well defined.
    pub fn new(config: Config, start_time_ms: u64) -> (s: CaptureSession)
        ensures
            s.config == config,
            s.buffer@ == Seq::<i16>::empty(),
            s.last_tick_ms == start_time_ms,
    {
        CaptureSession { config, buffer: Vec::new(), last_tick_ms: start_time_ms }
    }

    /// Ingest one voice tick.
    ///
    /// An idle tick (no active speakers) changes nothing: in particular
    /// it does not advance the gap clock, so the next tick carrying
    /// audio still measures the full elapsed silence since the last real
    /// audio. A tick with speakers first appends the silence that covers
    /// the elapsed gap, then each speaker's decoded samples in iteration
    /// order; a speaker without decoded audio is skipped.
    pub fn process_tick(&mut self, tick: &VoiceTick)
        requires
            tick.speaking@.len() > 0 ==> spec_silence_count(
                spec_elapsed_ms(old(self).last_tick_ms as int, tick.timestamp_ms as int),
                old(self).config.sample_rate as int,
            ) <= usize::MAX,
        ensures
            final(self).config == old(self).config,
            final(self).buffer@ == spec_ingest_buffer(
                old(self).buffer@,
                old(self).last_tick_ms as int,
                *tick,
                old(self).config.sample_rate as int,
            ),
            final(self).last_tick_ms == spec_ingest_last_ms(
                old(self).last_tick_ms as int,
                *tick,
            ),
            tick.speaking@.len() == 0 ==> final(self).buffer@ == old(self).buffer@
                && final(self).last_tick_ms == old(self).last_tick_ms,
    {
        if tick.speaking.len() == 0 {
            return;
        }
        let now = tick.timestamp_ms;
        let elapsed: u64 = if now >= self.last_tick_ms {
            now - self.last_tick_ms
        } else {
            0
        };
        let gap = silence_count(elapsed, self.config.sample_rate);
        append_silence(&mut self.buffer, gap);
        let ghost base = self.buffer@;
        proof {
            assert(self.buffer@ =~= base + tick_samples(tick.speaking@.take(0)));
        }
        let mut k: usize = 0;
        while k < tick.speaking.len()
            invariant
                0 <= k <= tick.speaking@.len(),
                self.buffer@ == base + tick_samples(tick.speaking@.take(k as int)),
                self.config == old(self).config,
                self.last_tick_ms == old(self).last_tick_ms,
            decreases tick.speaking@.len() - k,
        {
            match &tick.speaking[k].decoded_voice {
                Option::Some(decoded) => {
                    append_samples(&mut self.buffer, decoded);
                }
                Option::None => {}
            }
            proof {
                let taken = tick.speaking@.take(k as int);
                assert(tick.speaking@.take(k + 1) =~= taken.push(tick.speaking@[k as int]));
                lemma_tick_samples_push(taken, tick.speaking@[k as int]);
                assert(self.buffer@ =~= base + tick_samples(tick.speaking@.take(k + 1)));
            }
            k = k + 1;
        }
        self.last_tick_ms = now;
        proof {
            assert(tick.speaking@.take(tick.speaking@.len() as int) =~= tick.speaking@);
            assert(self.buffer@ =~= spec_ingest_buffer(
                old(self).buffer@,
                old(self).last_tick_ms as int,
                *tick,
                old(self).config.sample_rate as int,
            ));
        }
    }

    /// Close the capture and take ownership of everything recorded so
    /// far; the session's buffer is left empty, so no sample can be
    /// counted twice.
    pub fn take_buffer(&mut self) -> (buf: Vec<i16>)
        ensures
            buf@ == old(self).buffer@,
            final(self).buffer@ == Seq::<i16>::empty(),
            final(self).config == old(self).config,
            final(self).last_tick_ms == old(self).last_tick_ms,
    {
        let mut taken: Vec<i16> = Vec::new();
        core::mem::swap(&mut taken, &mut self.buffer);
        taken
    }

    /// Dispatch one voice event.
    ///
    /// A voice tick is ingested and yields nothing; the driver
    /// disconnect closes the capture and yields the buffer, ready for
    /// the encoder; every other event leaves the session untouched.
    pub fn handle_event(&mut self, event: &VoiceEvent) -> (taken: Option<Vec<i16>>)
        requires
            match *event {
                VoiceEvent::Tick(tick) => tick.speaking@.len() > 0 ==> spec_silence_count(
                    spec_elapsed_ms(old(self).last_tick_ms as int, tick.timestamp_ms as int),
                    old(self).config.sample_rate as int,
                ) <= usize::MAX,
                _ => true,
            },
        ensures
            final(self).config == old(self).config,
            match *event {
                VoiceEvent::Tick(tick) => {
                    &&& taken is None
                    &&& final(self).buffer@ == spec_ingest_buffer(
                        old(self).buffer@,
                        old(self).last_tick_ms as int,
                        tick,
                        old(self).config.sample_rate as int,
                    )
                    &&& final(self).last_tick_ms == spec_ingest_last_ms(
                        old(self).last_tick_ms as int,
                        tick,
                    )
                },
                VoiceEvent::DriverDisconnect => {
                    &&& taken matches Some(buf) && buf@ == old(self).buffer@
                    &&& final(self).buffer@ == Seq::<i16>::empty()
                    &&& final(self).last_tick_ms == old(self).last_tick_ms
                },
                VoiceEvent::Other => {
                    &&& taken is None
                    &&& final(self).buffer@ == old(self).buffer@
                    &&& final(self).last_tick_ms == old(self).last_tick_ms
                },
            },
    {
        match event {
            VoiceEvent::Tick(tick) => {
                self.process_tick(tick);
                None
            }
            VoiceEvent::DriverDisconnect => Some(self.take_buffer()),
            VoiceEvent::Other => None,
        }
    }
}

/// Ingesting a tick never removes samples: the old buffer is a prefix of
/// the new one, and a tick that carries audio contributes its samples as
/// the new buffer's suffix. In particular, the buffer taken at teardown
/// after a final tick's ingestion still holds that tick's samples.
pub proof fn lemma_no_loss_on_teardown(
    buffer: Seq<i16>,
    last_ms: int,
    tick: VoiceTick,
    sample_rate: int,
)
    requires
        tick.speaking@.len() > 0,
    ensures
        ({
            let after = spec_ingest_buffer(buffer, last_ms, tick, sample_rate);
            let contributed = tick_samples(tick.speaking@);
            &&& after.len() >= buffer.len() + contributed.len()
            &&& after.take(buffer.len() as int) == buffer
            &&& after.skip(after.len() - contributed.len()) == contributed
        }),
{
    let after = spec_ingest_buffer(buffer, last_ms, tick, sample_rate);
    let contributed = tick_samples(tick.speaking@);
    let gap = spec_silence_count(spec_elapsed_ms(last_ms, tick.timestamp_ms as int), sample_rate);
    assert(after =~= buffer + silence(gap as nat) + contributed);
    assert(after.take(buffer.len() as int) =~= buffer);
    assert(after.skip(after.len() - contributed.len()) =~= contributed);
}

/// Order preservation: ingesting tick `t1` and then tick `t2`, neither
/// of them idle and neither preceded by a gap above the threshold,
/// appends exactly `t1`'s samples followed by `t2`'s samples, with no
/// interleaving and no silence in between.
pub proof fn lemma_order_preservation(
    buffer: Seq<i16>,
    last_ms: int,
    t1: VoiceTick,
    t2: VoiceTick,
    sample_rate: int,
)
    requires
        t1.speaking@.len() > 0,
        t2.speaking@.len() > 0,
        spec_elapsed_ms(last_ms, t1.timestamp_ms as int) <= GAP_THRESHOLD_MS,
        spec_elapsed_ms(t1.timestamp_ms as int, t2.timestamp_ms as int) <= GAP_THRESHOLD_MS,
    ensures
        spec_ingest_buffer(
            spec_ingest_buffer(buffer, last_ms, t1, sample_rate),
            spec_ingest_last_ms(last_ms, t1),
            t2,
            sample_rate,
        ) == buffer + tick_samples(t1.speaking@) + tick_samples(t2.speaking@),
{
    let mid = spec_ingest_buffer(buffer, last_ms, t1, sample_rate);
    assert(silence(0) =~= Seq::<i16>::empty());
    assert(mid =~= buffer + tick_samples(t1.speaking@));
    assert(spec_ingest_buffer(mid, spec_ingest_last_ms(last_ms, t1), t2, sample_rate)
        =~= buffer + tick_samples(t1.speaking@) + tick_samples(t2.speaking@));
}

} // verus!
