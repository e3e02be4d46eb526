use vstd::prelude::*;

verus! {

/// Number of frames the gain envelope needs to travel its whole range at the
/// given sample rate: an 8 ms linear ramp, and at least one frame, so that a
/// degenerate sample rate still moves the gain the whole way in one step.
///
/// The gain itself is carried as an integer numerator over this value:
/// `0` is silence, `spec_ramp_frames(rate)` is unity gain.
pub open spec fn spec_ramp_frames(sample_rate: u32) -> int {
    if sample_rate / 125 == 0 {
        1
    } else {
        sample_rate as int / 125
    }
}

/// The gain numerator after advancing `frames` frames toward open (`1`) or
/// closed (`0`), one equal step per frame, clamped to `[0, ramp]`.
pub open spec fn spec_envelope(gain: int, target_open: bool, frames: int, ramp: int) -> int {
    if target_open {
        if gain + frames <= ramp {
            gain + frames
        } else {
            ramp
        }
    } else {
        if gain - frames >= 0 {
            gain - frames
        } else {
            0
        }
    }
}

/// Length of the 8 ms gain ramp in frames.
pub fn ramp_frames(sample_rate: u32) -> (r: u32)
    ensures
        r == spec_ramp_frames(sample_rate),
        1 <= r <= 34359738,
{
    let r = sample_rate / 125;
    if r == 0 {
        1
    } else {
        r
    }
}

/// Advances the gain numerator linearly toward `1` (open) or `0` (closed)
/// over the fixed 8 ms ramp, one frame at a time, clamped to `[0, unity]`.
///
/// Deterministic and side-effect free: the per-callback gain recomputation
/// of the output stream.
pub fn apply_envelope(current_gain: &mut u32, target_open: bool, frame_count: usize, sample_rate: u32)
    requires
        *old(current_gain) <= spec_ramp_frames(sample_rate),
    ensures
        *final(current_gain) == spec_envelope(
            *old(current_gain) as int,
            target_open,
            frame_count as int,
            spec_ramp_frames(sample_rate),
        ),
        *final(current_gain) <= spec_ramp_frames(sample_rate),
{
    let ramp = ramp_frames(sample_rate);
    let mut i: usize = 0;
    while i < frame_count
        invariant
            i <= frame_count,
            ramp == spec_ramp_frames(sample_rate),
            *current_gain <= ramp,
            *current_gain == spec_envelope(
                *old(current_gain) as int,
                target_open,
                i as int,
                ramp as int,
            ),
        decreases frame_count - i,
    {
        if target_open {
            if *current_gain < ramp {
                *current_gain = *current_gain + 1;
            }
        } else {
            if *current_gain > 0 {
                *current_gain = *current_gain - 1;
            }
        }
        i = i + 1;
    }
}

/// Law: starting anywhere in range, ramping toward open for at least the
/// whole ramp length reaches unity gain.
pub proof fn lemma_envelope_reaches_full(gain: int, frames: int, ramp: int)
    requires
        0 <= gain,
        0 <= ramp <= frames,
    ensures
        spec_envelope(gain, true, frames, ramp) == ramp,
{
}

/// Law: starting anywhere at or below unity, ramping toward closed for at
/// least the whole ramp length reaches silence.
pub proof fn lemma_envelope_reaches_silence(gain: int, frames: int, ramp: int)
    requires
        gain <= ramp <= frames,
    ensures
        spec_envelope(gain, false, frames, ramp) == 0,
{
}

/// Law: from silence, any ramp toward open moves the gain strictly above
/// zero within the first frame.
pub proof fn lemma_envelope_strictly_opens(gain: int, frames: int, ramp: int)
    requires
        0 <= gain,
        1 <= frames,
        1 <= ramp,
    ensures
        spec_envelope(gain, true, frames, ramp) > 0,
{
}

} // verus!
