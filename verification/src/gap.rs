//! Gap filling.
//!
//! Voice ticks are not guaranteed to arrive at a perfectly fixed cadence:
//! network jitter and upstream silence suppression both produce delivery
//! gaps. To preserve approximate wall-clock alignment of the archived
//! recording, a gap longer than a fixed threshold is covered by inserting
//! zero-valued (silent) samples at the configured sample rate.

use vstd::prelude::*;

verus! {

/// Gaps of at most this many milliseconds are left uncompensated.
pub const GAP_THRESHOLD_MS: u64 = 100;

/// Number of silence samples that cover an elapsed gap: zero at or below
/// the threshold, and `floor(elapsed_seconds * sample_rate)` above it.
pub open spec fn spec_silence_count(elapsed_ms: int, sample_rate: int) -> int {
    if elapsed_ms <= GAP_THRESHOLD_MS {
        0
    } else {
        elapsed_ms * sample_rate / 1000
    }
}

/// A run of `n` silent samples.
pub open spec fn silence(n: nat) -> Seq<i16> {
    Seq::new(n, |i: int| 0i16)
}

/// Compute the number of silence samples that cover a delivery gap of
/// `elapsed_ms` milliseconds at `sample_rate` Hz.
pub fn silence_count(elapsed_ms: u64, sample_rate: u32) -> (n: usize)
    requires
        spec_silence_count(elapsed_ms as int, sample_rate as int) <= usize::MAX,
    ensures
        n == spec_silence_count(elapsed_ms as int, sample_rate as int),
{
    if elapsed_ms <= GAP_THRESHOLD_MS {
        0
    } else {
        let wide: u128 = (elapsed_ms as u128) * (sample_rate as u128);
        proof {
            assert((elapsed_ms as u128) * (sample_rate as u128)
                == (elapsed_ms as int) * (sample_rate as int)) by (nonlinear_arith)
                requires
                    elapsed_ms <= u64::MAX,
                    sample_rate <= u32::MAX;
        }
        (wide / 1000) as usize
    }
}

/// Append `n` silent samples to `buffer`.
pub fn append_silence(buffer: &mut Vec<i16>, n: usize)
    ensures
        final(buffer)@ == old(buffer)@ + silence(n as nat),
{
    proof {
        assert(buffer@ =~= old(buffer)@ + silence(0));
    }
    let mut i: usize = 0;
    while i < n
        invariant
            0 <= i <= n,
            buffer@ == old(buffer)@ + silence(i as nat),
        decreases n - i,
    {
        buffer.push(0i16);
        proof {
            assert(silence((i + 1) as nat) =~= silence(i as nat).push(0i16));
        }
        i = i + 1;
    }
}

} // verus!
