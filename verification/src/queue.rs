use std::collections::VecDeque;

use vstd::prelude::*;

verus! {

/// A queue after one bounded push: at capacity the oldest sample leaves
/// first (drop-oldest backpressure), then the new sample is appended.
pub open spec fn spec_push(q: Seq<i32>, cap: int, s: i32) -> Seq<i32> {
    if q.len() >= cap {
        q.subrange(1, q.len() as int).push(s)
    } else {
        q.push(s)
    }
}

/// A queue after pushing every sample of `ss` in order, each push bounded.
pub open spec fn spec_push_all(q: Seq<i32>, cap: int, ss: Seq<i32>) -> Seq<i32>
    decreases ss.len(),
{
    if ss.len() == 0 {
        q
    } else {
        spec_push_all(spec_push(q, cap, ss[0]), cap, ss.drop_first())
    }
}

/// The newest `n` elements of `s`: all of `s` when it is no longer than `n`.
pub open spec fn spec_last_n(s: Seq<i32>, n: int) -> Seq<i32> {
    if s.len() <= n {
        s
    } else {
        s.subrange(s.len() - n, s.len() as int)
    }
}

/// The bounded FIFO of samples between the producer (input stream callback)
/// and the consumer (output stream callback). Holds at most `cap` samples;
/// a push at capacity evicts the oldest sample first.
#[derive(Debug)]
pub struct SampleQueue {
    buf: VecDeque<i32>,
    cap: usize,
}

impl View for SampleQueue {
    type V = Seq<i32>;

    closed spec fn view(&self) -> Seq<i32> {
        self.buf@
    }
}

impl SampleQueue {
    /// The fixed bound on the number of queued samples.
    pub closed spec fn spec_cap(&self) -> int {
        self.cap as int
    }

    /// The queue never holds more than its bound, and the bound is positive.
    pub open spec fn wf(&self) -> bool {
        self@.len() <= self.spec_cap() && 1 <= self.spec_cap()
    }

    /// An empty queue bounded at `capacity` samples.
    pub fn new(capacity: usize) -> (r: Self)
        requires
            1 <= capacity,
        ensures
            r.wf(),
            r@ == Seq::<i32>::empty(),
            r.spec_cap() == capacity,
    {
        SampleQueue { buf: VecDeque::new(), cap: capacity }
    }

    /// The fixed bound, as a run-time value.
    pub fn capacity(&self) -> (r: usize)
        ensures
            r == self.spec_cap(),
    {
        self.cap
    }

    /// How many samples are queued.
    pub fn len(&self) -> (r: usize)
        ensures
            r == self@.len(),
    {
        self.buf.len()
    }

    /// Whether no sample is queued.
    pub fn is_empty(&self) -> (r: bool)
        ensures
            r == (self@.len() == 0),
    {
        self.buf.len() == 0
    }

    /// Appends one sample; at capacity the oldest sample is evicted first.
    pub fn push(&mut self, s: i32)
        requires
            old(self).wf(),
        ensures
            final(self).wf(),
            final(self).spec_cap() == old(self).spec_cap(),
            final(self)@ == spec_push(old(self)@, old(self).spec_cap(), s),
    {
        if self.buf.len() == self.cap {
            let _ = self.buf.pop_front();
        }
        self.buf.push_back(s);
    }

    /// Removes and returns the oldest sample, or `None` when empty.
    pub fn pop(&mut self) -> (r: Option<i32>)
        requires
            old(self).wf(),
        ensures
            final(self).wf(),
            final(self).spec_cap() == old(self).spec_cap(),
            match r {
                Some(x) => old(self)@.len() > 0 && x == old(self)@[0] && final(self)@ == old(
                    self,
                )@.drop_first(),
                None => old(self)@.len() == 0 && final(self)@ == old(self)@,
            },
    {
        self.buf.pop_front()
    }

    /// Appends every sample of `data` in order, each push bounded: the
    /// producer side of the bridge.
    pub fn push_samples(&mut self, data: &Vec<i32>)
        requires
            old(self).wf(),
        ensures
            final(self).wf(),
            final(self).spec_cap() == old(self).spec_cap(),
            final(self)@ == spec_push_all(old(self)@, old(self).spec_cap(), data@),
    {
        let ghost q0 = self@;
        let ghost cap = self.spec_cap();
        let n = data.len();
        let mut i: usize = 0;
        while i < n
            invariant
                i <= n,
                n == data@.len(),
                self.wf(),
                self.spec_cap() == cap,
                self@ == spec_push_all(q0, cap, data@.take(i as int)),
            decreases n - i,
        {
            proof {
                lemma_push_all_snoc(q0, cap, data@.take(i as int), data@[i as int]);
                assert(data@.take(i as int).push(data@[i as int]) =~= data@.take(i + 1));
            }
            self.push(data[i]);
            i = i + 1;
        }
        proof {
            assert(data@.take(n as int) =~= data@);
        }
    }
}

/// Pushing one more sample after a whole sequence is the same as pushing the
/// extended sequence.
proof fn lemma_push_all_snoc(q: Seq<i32>, cap: int, ss: Seq<i32>, s: i32)
    ensures
        spec_push_all(q, cap, ss.push(s)) == spec_push(spec_push_all(q, cap, ss), cap, s),
    decreases ss.len(),
{
    if ss.len() == 0 {
        assert(ss.push(s).drop_first() =~= Seq::<i32>::empty());
        assert(spec_push_all(q, cap, ss.push(s)) == spec_push_all(
            spec_push(q, cap, s),
            cap,
            Seq::<i32>::empty(),
        ));
    } else {
        assert(ss.push(s)[0] == ss[0]);
        assert(ss.push(s).drop_first() =~= ss.drop_first().push(s));
        lemma_push_all_snoc(spec_push(q, cap, ss[0]), cap, ss.drop_first(), s);
    }
}

/// Law: pushing any run of samples into a bounded queue leaves exactly the
/// newest `cap` samples of "what was there, then the run", in their original
/// relative order; fewer when the total never reached the bound.
pub proof fn lemma_push_all_keeps_most_recent(q: Seq<i32>, cap: int, ss: Seq<i32>)
    requires
        1 <= cap,
        q.len() <= cap,
    ensures
        spec_push_all(q, cap, ss) == spec_last_n(q + ss, cap),
    decreases ss.len(),
{
    if ss.len() == 0 {
        assert(q + ss =~= q);
    } else {
        let q1 = spec_push(q, cap, ss[0]);
        lemma_push_all_keeps_most_recent(q1, cap, ss.drop_first());
        if q.len() < cap {
            assert(q1 + ss.drop_first() =~= q + ss);
        } else {
            assert(q1 + ss.drop_first() =~= (q + ss).subrange(1, (q + ss).len() as int));
            let t = q + ss;
            let t1 = t.subrange(1, t.len() as int);
            if t1.len() <= cap {
                assert(spec_last_n(t1, cap) =~= spec_last_n(t, cap));
            } else {
                assert(t1.subrange(t1.len() - cap, t1.len() as int) =~= t.subrange(
                    t.len() - cap,
                    t.len() as int,
                ));
            }
        }
    }
}

} // verus!
