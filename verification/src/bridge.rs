use vstd::arithmetic::div_mod::{lemma_div_is_ordered, lemma_div_multiples_vanish};
use vstd::arithmetic::mul::lemma_mul_inequality;
use vstd::prelude::*;

use crate::envelope::{ramp_frames, spec_envelope, spec_ramp_frames};
use crate::queue::{spec_push_all, SampleQueue};
use crate::types::{EngineState, GateState, RuntimeStatus};

verus! {

/// The mathematical state the output callback works on: the queued samples,
/// the envelope gain numerator, and the underrun count.
pub ghost struct MixState {
    pub q: Seq<i32>,
    pub gain: int,
    pub xruns: int,
}

/// The state and emitted samples after consuming some number of frames.
pub ghost struct MixResult {
    pub state: MixState,
    pub out: Seq<int>,
}

/// A sample scaled by the gain fraction `gain / ramp`, the product truncated
/// toward zero as integer audio scaling does.
pub open spec fn spec_scaled(s: i32, gain: int, ramp: int) -> int {
    if s >= 0 {
        (s * gain) / ramp
    } else {
        -(((-(s as int)) * gain) / ramp)
    }
}

/// One consumed frame: the gain moves one step toward the gating target,
/// then, while open, the oldest queued sample is emitted scaled by the gain
/// (silence and one underrun when the queue is empty); while closed, silence
/// is emitted and the queue and the underrun count are untouched.
pub open spec fn spec_mix_frame(st: MixState, open: bool, ramp: int) -> (MixState, int) {
    let gain = spec_envelope(st.gain, open, 1, ramp);
    if open {
        if st.q.len() > 0 {
            (MixState { q: st.q.drop_first(), gain, xruns: st.xruns }, spec_scaled(st.q[0], gain, ramp))
        } else {
            (MixState { q: st.q, gain, xruns: st.xruns + 1 }, 0)
        }
    } else {
        (MixState { q: st.q, gain, xruns: st.xruns }, 0)
    }
}

/// `n` consumed frames, oldest first.
pub open spec fn spec_mix(st: MixState, open: bool, ramp: int, n: nat) -> MixResult
    decreases n,
{
    if n == 0 {
        MixResult { state: st, out: Seq::empty() }
    } else {
        let (st1, o) = spec_mix_frame(st, open, ramp);
        let rest = spec_mix(st1, open, ramp, (n - 1) as nat);
        MixResult { state: rest.state, out: seq![o] + rest.out }
    }
}

/// Consuming one more frame after `n` frames is the same as consuming
/// `n + 1` frames.
proof fn lemma_mix_snoc(st: MixState, open: bool, ramp: int, n: nat)
    ensures
        spec_mix(st, open, ramp, n + 1).state == spec_mix_frame(
            spec_mix(st, open, ramp, n).state,
            open,
            ramp,
        ).0,
        spec_mix(st, open, ramp, n + 1).out == spec_mix(st, open, ramp, n).out.push(
            spec_mix_frame(spec_mix(st, open, ramp, n).state, open, ramp).1,
        ),
    decreases n,
{
    let (st1, o) = spec_mix_frame(st, open, ramp);
    if n == 0 {
        reveal_with_fuel(spec_mix, 3);
        assert(spec_mix(st, open, ramp, 1).out =~= Seq::<int>::empty().push(o));
    } else {
        lemma_mix_snoc(st1, open, ramp, (n - 1) as nat);
        assert(seq![o] + spec_mix(st1, open, ramp, (n - 1) as nat).out.push(
            spec_mix_frame(spec_mix(st1, open, ramp, (n - 1) as nat).state, open, ramp).1,
        ) =~= (seq![o] + spec_mix(st1, open, ramp, (n - 1) as nat).out).push(
            spec_mix_frame(spec_mix(st1, open, ramp, (n - 1) as nat).state, open, ramp).1,
        ));
    }
}

/// Law: a frame accounts one underrun exactly when the consumer finds the
/// queue empty while the microphone gate is open, and none while it is
/// closed; the count never decreases.
pub proof fn lemma_xrun_accounting(st: MixState, open: bool, ramp: int)
    ensures
        spec_mix_frame(st, open, ramp).0.xruns == st.xruns + (
        if open && st.q.len() == 0 {
            1int
        } else {
            0int
        }),
{
}

/// Law: while the microphone gate is closed, every emitted sample is
/// silence and neither the queue nor the underrun count changes, whatever
/// is queued.
pub proof fn lemma_mix_closed_is_silent(st: MixState, ramp: int, n: nat)
    ensures
        spec_mix(st, false, ramp, n).state.q == st.q,
        spec_mix(st, false, ramp, n).state.xruns == st.xruns,
        spec_mix(st, false, ramp, n).out.len() == n,
        forall|i: int| 0 <= i < n ==> spec_mix(st, false, ramp, n).out[i] == 0,
    decreases n,
{
    if n > 0 {
        let (st1, _) = spec_mix_frame(st, false, ramp);
        lemma_mix_closed_is_silent(st1, ramp, (n - 1) as nat);
    }
}

/// Law: while the microphone gate is open and the queue holds enough
/// samples, the emitted samples are the oldest queued samples in order,
/// each scaled by the gain as it ramps one step per frame toward unity,
/// with no underrun.
pub proof fn lemma_mix_open_drains_in_order(st: MixState, ramp: int, n: nat)
    requires
        n <= st.q.len(),
        st.gain <= ramp,
    ensures
        spec_mix(st, true, ramp, n).state.q == st.q.skip(n as int),
        spec_mix(st, true, ramp, n).state.xruns == st.xruns,
        spec_mix(st, true, ramp, n).state.gain == spec_envelope(st.gain, true, n as int, ramp),
        spec_mix(st, true, ramp, n).out.len() == n,
        forall|i: int|
            0 <= i < n ==> spec_mix(st, true, ramp, n).out[i] == spec_scaled(
                st.q[i],
                spec_envelope(st.gain, true, i + 1, ramp),
                ramp,
            ),
    decreases n,
{
    if n == 0 {
        assert(st.q.skip(0) =~= st.q);
    } else {
        let (st1, o) = spec_mix_frame(st, true, ramp);
        lemma_mix_open_drains_in_order(st1, ramp, (n - 1) as nat);
        assert(st.q.drop_first().skip(n - 1) =~= st.q.skip(n as int));
        assert forall|i: int| 0 <= i < n implies spec_mix(st, true, ramp, n).out[i]
            == spec_scaled(st.q[i], spec_envelope(st.gain, true, i + 1, ramp), ramp) by {
            if i > 0 {
                assert(spec_mix(st, true, ramp, n).out[i] == spec_mix(
                    st1,
                    true,
                    ramp,
                    (n - 1) as nat,
                ).out[i - 1]);
                assert(st.q.drop_first()[i - 1] == st.q[i]);
            }
        }
    }
}

/// Law: while the microphone gate is open over an empty queue, every
/// emitted sample is silence and each frame accounts exactly one underrun.
pub proof fn lemma_mix_open_empty_underruns(st: MixState, ramp: int, n: nat)
    requires
        st.q.len() == 0,
    ensures
        spec_mix(st, true, ramp, n).state.q == st.q,
        spec_mix(st, true, ramp, n).state.xruns == st.xruns + n,
        spec_mix(st, true, ramp, n).out.len() == n,
        forall|i: int| 0 <= i < n ==> spec_mix(st, true, ramp, n).out[i] == 0,
    decreases n,
{
    if n > 0 {
        let (st1, _) = spec_mix_frame(st, true, ramp);
        lemma_mix_open_empty_underruns(st1, ramp, (n - 1) as nat);
    }
}

/// Law: the underrun count never decreases, open or closed.
pub proof fn lemma_mix_xruns_monotonic(st: MixState, open: bool, ramp: int, n: nat)
    ensures
        spec_mix(st, open, ramp, n).state.xruns >= st.xruns,
    decreases n,
{
    if n > 0 {
        let (st1, _) = spec_mix_frame(st, open, ramp);
        lemma_mix_xruns_monotonic(st1, open, ramp, (n - 1) as nat);
    }
}

/// Law: once the gain sits at unity, an open gate plays the queued samples
/// back exactly: the emitted samples equal the oldest queued samples in
/// order, with no underrun, until the queue drains.
pub proof fn lemma_mix_open_at_unity_is_identity(st: MixState, ramp: int, n: nat)
    requires
        st.gain == ramp,
        1 <= ramp,
        n <= st.q.len(),
    ensures
        spec_mix(st, true, ramp, n).state.q == st.q.skip(n as int),
        spec_mix(st, true, ramp, n).state.xruns == st.xruns,
        spec_mix(st, true, ramp, n).out.len() == n,
        forall|i: int| 0 <= i < n ==> spec_mix(st, true, ramp, n).out[i] == st.q[i],
{
    lemma_mix_open_drains_in_order(st, ramp, n);
    assert forall|i: int| 0 <= i < n implies spec_mix(st, true, ramp, n).out[i] == st.q[i] by {
        assert(spec_envelope(st.gain, true, i + 1, ramp) == ramp);
        lemma_scaled_at_unity(st.q[i], ramp);
    }
}

/// Law: at unity gain the scaling is exact: the emitted sample equals the
/// queued sample.
pub proof fn lemma_scaled_at_unity(s: i32, ramp: int)
    requires
        0 < ramp,
    ensures
        spec_scaled(s, ramp, ramp) == s,
{
    if s >= 0 {
        lemma_div_multiples_vanish(s as int, ramp);
        assert(s * ramp == ramp * (s as int)) by (nonlinear_arith);
    } else {
        lemma_div_multiples_vanish(-(s as int), ramp);
        assert((-(s as int)) * ramp == ramp * (-(s as int))) by (nonlinear_arith);
    }
}

/// Law: at zero gain the emitted sample is silence.
pub proof fn lemma_scaled_at_zero(s: i32, ramp: int)
    requires
        0 < ramp,
    ensures
        spec_scaled(s, 0, ramp) == 0,
{
    assert(s * 0 == 0) by (nonlinear_arith);
    assert((-(s as int)) * 0 == 0) by (nonlinear_arith);
}

/// Scaling never grows a sample's magnitude, so the result stays in range.
proof fn lemma_scaled_bounds(s: i32, gain: int, ramp: int)
    requires
        0 <= gain <= ramp,
        0 < ramp,
    ensures
        s >= 0 ==> 0 <= spec_scaled(s, gain, ramp) <= s,
        s < 0 ==> s <= spec_scaled(s, gain, ramp) <= 0,
{
    if s >= 0 {
        lemma_mul_inequality(gain, ramp, s as int);
        assert(s * gain == gain * (s as int)) by (nonlinear_arith);
        assert(s * ramp == ramp * (s as int)) by (nonlinear_arith);
        lemma_div_is_ordered(s * gain, s * ramp, ramp);
        lemma_div_multiples_vanish(s as int, ramp);
        lemma_div_is_ordered(0, s * gain, ramp);
        assert(0 * gain == 0) by (nonlinear_arith);
    } else {
        let m = -(s as int);
        lemma_mul_inequality(gain, ramp, m);
        assert(m * gain == gain * m) by (nonlinear_arith);
        assert(m * ramp == ramp * m) by (nonlinear_arith);
        lemma_div_is_ordered(m * gain, m * ramp, ramp);
        lemma_div_multiples_vanish(m, ramp);
        lemma_div_is_ordered(0, m * gain, ramp);
    }
}

/// One sample scaled by `gain / ramp`, truncating toward zero.
fn scale_sample(s: i32, gain: u32, ramp: u32) -> (r: i32)
    requires
        0 < ramp,
        gain <= ramp,
    ensures
        r as int == spec_scaled(s, gain as int, ramp as int),
{
    proof {
        lemma_scaled_bounds(s, gain as int, ramp as int);
    }
    if s >= 0 {
        assert((s as int) * (gain as int) <= u64::MAX) by (nonlinear_arith)
            requires
                0 <= s <= i32::MAX,
                0 <= gain <= u32::MAX,
        ;
        let num: u64 = (s as u64) * (gain as u64);
        let q: u64 = num / (ramp as u64);
        q as i32
    } else {
        let mag: u64 = (-(s as i64)) as u64;
        assert((mag as int) * (gain as int) <= u64::MAX) by (nonlinear_arith)
            requires
                0 <= mag <= 0x80000000u64,
                0 <= gain <= u32::MAX,
        ;
        let num: u64 = mag * (gain as u64);
        let q: u64 = num / (ramp as u64);
        (-(q as i64)) as i32
    }
}

/// The live audio bridge between the input stream's producer callback and
/// the output stream's consumer callback: a bounded sample queue, the
/// envelope gain, the underrun counter and the last asynchronous stream
/// error. The embedding program owns the device streams themselves and
/// forwards their callback buffers here.
#[derive(Debug)]
pub struct AudioBridge {
    queue: SampleQueue,
    gain: u32,
    xruns: u64,
    sample_rate: u32,
    channels: u16,
    last_error: Option<String>,
}

impl AudioBridge {
    /// The queued samples, oldest first.
    pub closed spec fn spec_queue(&self) -> Seq<i32> {
        self.queue@
    }

    /// The current envelope gain numerator.
    pub closed spec fn spec_gain(&self) -> int {
        self.gain as int
    }

    /// The number of underruns so far.
    pub closed spec fn spec_xruns(&self) -> int {
        self.xruns as int
    }

    /// The negotiated sample rate.
    pub closed spec fn spec_sample_rate(&self) -> u32 {
        self.sample_rate
    }

    /// The negotiated channel count.
    pub closed spec fn spec_channels(&self) -> u16 {
        self.channels
    }

    /// The last asynchronous stream error, if any was recorded.
    pub closed spec fn spec_last_error(&self) -> Option<Seq<char>> {
        match self.last_error {
            Some(ref s) => Some(s@),
            None => None,
        }
    }

    /// The queue bound: about one second of audio at the negotiated format.
    pub closed spec fn spec_cap(&self) -> int {
        self.queue.spec_cap()
    }

    /// The queue respects its bound and the gain never exceeds unity.
    pub closed spec fn wf(&self) -> bool {
        &&& self.queue.wf()
        &&& self.spec_gain() <= spec_ramp_frames(self.spec_sample_rate())
    }

    /// The mixing state the consumer callback works on.
    pub open spec fn mix_state(&self) -> MixState {
        MixState { q: self.spec_queue(), gain: self.spec_gain(), xruns: self.spec_xruns() }
    }

    /// A fresh bridge for the negotiated format: an empty queue bounded at
    /// one second of audio, zero gain (closed), no underruns, no error.
    pub fn new(sample_rate: u32, channels: u16) -> (r: Self)
        requires
            sample_rate as int * channels as int <= usize::MAX,
        ensures
            r.wf(),
            r.spec_queue() == Seq::<i32>::empty(),
            r.spec_gain() == 0,
            r.spec_xruns() == 0,
            r.spec_sample_rate() == sample_rate,
            r.spec_channels() == channels,
            r.spec_last_error() is None,
            r.spec_cap() == if sample_rate as int * channels as int >= 1 {
                sample_rate as int * channels as int
            } else {
                1int
            },
    {
        proof {
            assert(sample_rate as int * channels as int >= 0) by (nonlinear_arith);
        }
        let cap_wide: u64 = (sample_rate as u64) * (channels as u64);
        let cap: usize = if cap_wide == 0 {
            1
        } else {
            cap_wide as usize
        };
        AudioBridge {
            queue: SampleQueue::new(cap),
            gain: 0,
            xruns: 0,
            sample_rate,
            channels,
            last_error: None,
        }
    }

    /// The producer callback: appends every incoming sample, evicting the
    /// oldest at capacity. Gain, underruns and error slot are untouched.
    pub fn push_input(&mut self, data: &Vec<i32>)
        requires
            old(self).wf(),
        ensures
            final(self).wf(),
            final(self).spec_queue() == spec_push_all(
                old(self).spec_queue(),
                old(self).spec_cap(),
                data@,
            ),
            final(self).spec_gain() == old(self).spec_gain(),
            final(self).spec_xruns() == old(self).spec_xruns(),
            final(self).spec_sample_rate() == old(self).spec_sample_rate(),
            final(self).spec_channels() == old(self).spec_channels(),
            final(self).spec_cap() == old(self).spec_cap(),
            final(self).spec_last_error() == old(self).spec_last_error(),
    {
        self.queue.push_samples(data);
    }

    /// The consumer callback: fills `frames` output samples from the queue
    /// under the envelope gain, as `spec_mix` states frame by frame.
    pub fn render_output(&mut self, open: bool, frames: usize) -> (out: Vec<i32>)
        requires
            old(self).wf(),
            old(self).spec_xruns() + frames <= u64::MAX,
        ensures
            final(self).wf(),
            out@.len() == frames,
            final(self).spec_xruns() >= old(self).spec_xruns(),
            out@.map_values(|x: i32| x as int) == spec_mix(
                old(self).mix_state(),
                open,
                spec_ramp_frames(old(self).spec_sample_rate()),
                frames as nat,
            ).out,
            final(self).mix_state() == spec_mix(
                old(self).mix_state(),
                open,
                spec_ramp_frames(old(self).spec_sample_rate()),
                frames as nat,
            ).state,
            final(self).spec_sample_rate() == old(self).spec_sample_rate(),
            final(self).spec_channels() == old(self).spec_channels(),
            final(self).spec_cap() == old(self).spec_cap(),
            final(self).spec_last_error() == old(self).spec_last_error(),
    {
        let ghost st0 = self.mix_state();
        let ghost g_ramp = spec_ramp_frames(self.sample_rate);
        let ramp = ramp_frames(self.sample_rate);
        let mut out: Vec<i32> = Vec::new();
        let mut i: usize = 0;
        while i < frames
            invariant
                i <= frames,
                self.wf(),
                ramp == g_ramp,
                g_ramp == spec_ramp_frames(self.spec_sample_rate()),
                self.spec_sample_rate() == old(self).spec_sample_rate(),
                self.spec_channels() == old(self).spec_channels(),
                self.spec_cap() == old(self).spec_cap(),
                self.spec_last_error() == old(self).spec_last_error(),
                old(self).spec_xruns() + frames <= u64::MAX,
                st0 == old(self).mix_state(),
                st0.xruns <= self.spec_xruns() <= st0.xruns + i,
                self.mix_state() == spec_mix(st0, open, g_ramp, i as nat).state,
                out@.len() == i,
                out@.map_values(|x: i32| x as int) == spec_mix(st0, open, g_ramp, i as nat).out,
            decreases frames - i,
        {
            proof {
                lemma_mix_snoc(st0, open, g_ramp, i as nat);
            }
            if open {
                if self.gain < ramp {
                    self.gain = self.gain + 1;
                }
            } else {
                if self.gain > 0 {
                    self.gain = self.gain - 1;
                }
            }
            let sample: i32 = if open {
                match self.queue.pop() {
                    Some(v) => scale_sample(v, self.gain, ramp),
                    None => {
                        self.xruns = self.xruns + 1;
                        0
                    },
                }
            } else {
                0
            };
            out.push(sample);
            i = i + 1;
            proof {
                assert(out@.map_values(|x: i32| x as int) =~= spec_mix(
                    st0,
                    open,
                    g_ramp,
                    i as nat,
                ).out);
            }
        }
        out
    }

    /// Records an asynchronous stream error into the last-error slot; the
    /// streams keep running.
    pub fn record_error(&mut self, msg: String)
        requires
            old(self).wf(),
        ensures
            final(self).wf(),
            final(self).spec_last_error() == Some(msg@),
            final(self).mix_state() == old(self).mix_state(),
            final(self).spec_sample_rate() == old(self).spec_sample_rate(),
            final(self).spec_channels() == old(self).spec_channels(),
            final(self).spec_cap() == old(self).spec_cap(),
    {
        self.last_error = Some(msg);
    }

    /// The externally observable snapshot of the running bridge.
    pub fn status(&self, gate_state: GateState) -> (r: RuntimeStatus)
        ensures
            r.engine_state == EngineState::Running,
            r.buffer_level_ms as int == spec_buffer_level_ms(
                self.spec_queue().len() as int,
                self.spec_sample_rate() as int,
                self.spec_channels() as int,
            ),
            r.xruns as int == self.spec_xruns(),
            match (r.last_error, self.spec_last_error()) {
                (Some(a), Some(b)) => a@ == b,
                (None, None) => true,
                _ => false,
            },
            r.gate_state == gate_state,
    {
        let last_error = match &self.last_error {
            Some(s) => Some(s.clone()),
            None => None,
        };
        RuntimeStatus {
            engine_state: EngineState::Running,
            buffer_level_ms: buffer_level_ms(self.queue.len(), self.sample_rate, self.channels),
            xruns: self.xruns,
            last_error,
            gate_state,
        }
    }
}

/// How many milliseconds of audio a queue of `len` samples holds at the
/// given format: `len / (sample_rate * channels / 1000)`, zero when the
/// denominator is zero, saturated at the counter's width.
pub open spec fn spec_buffer_level_ms(len: int, sample_rate: int, channels: int) -> int {
    let spm = (sample_rate * channels) / 1000;
    if spm == 0 {
        0
    } else if len / spm > u32::MAX {
        u32::MAX as int
    } else {
        len / spm
    }
}

/// Computes the buffer level in milliseconds for a queue length.
pub fn buffer_level_ms(queue_len: usize, sample_rate: u32, channels: u16) -> (r: u32)
    ensures
        r as int == spec_buffer_level_ms(queue_len as int, sample_rate as int, channels as int),
{
    proof {
        assert(sample_rate as int * channels as int <= u64::MAX) by (nonlinear_arith);
        assert(sample_rate as int * channels as int >= 0) by (nonlinear_arith);
    }
    let spm: u64 = ((sample_rate as u64) * (channels as u64)) / 1000;
    if spm == 0 {
        0
    } else {
        let level: u64 = (queue_len as u64) / spm;
        if level > u32::MAX as u64 {
            u32::MAX
        } else {
            level as u32
        }
    }
}

} // verus!
