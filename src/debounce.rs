use vstd::prelude::*;

verus! {

/// Settle period of the change-notification pipeline, in milliseconds.
pub const DEBOUNCE_WINDOW_MS: u64 = 500;

/// `now + window`, held at the largest time.
pub open spec fn window_end(now: u64, window: u64) -> u64 {
    if now as int + window as int > u64::MAX as int {
        u64::MAX
    } else {
        (now + window) as u64
    }
}

/// A trailing-edge debounce stage. The first value after an idle period
/// opens a window; a value arriving before it closes replaces the pending
/// one and restarts the window; when the window closes with no new arrival,
/// the pending value is published once and the stage is idle again.
#[derive(Clone, Debug)]
pub struct Debouncer<T> {
    pub window_ms: u64,
    pub pending: Option<T>,
    pub deadline: Option<u64>,
}

/// The stage after a value `v` arrives at `now`.
pub open spec fn fed<T>(d: Debouncer<T>, now: u64, v: T) -> Debouncer<T> {
    Debouncer { window_ms: d.window_ms, pending: Some(v), deadline: Some(window_end(now, d.window_ms)) }
}

/// The stage after the time `now` is observed, and what it publishes.
pub open spec fn polled<T>(d: Debouncer<T>, now: u64) -> (Debouncer<T>, Option<T>) {
    if d.deadline matches Some(end) && now >= end {
        (Debouncer { window_ms: d.window_ms, pending: None, deadline: None }, d.pending)
    } else {
        (d, None)
    }
}

/// A run of arrivals: before each value is taken at its time, the stage is
/// polled at that time. Gives the final stage and what each poll published.
pub open spec fn burst<T>(d: Debouncer<T>, times: Seq<u64>, values: Seq<T>) -> (
    Debouncer<T>,
    Seq<Option<T>>,
)
    decreases times.len(),
{
    if times.len() == 0 || values.len() == 0 {
        (d, Seq::empty())
    } else {
        let (d1, outs) = burst(d, times.drop_last(), values.drop_last());
        let (d2, o) = polled(d1, times.last());
        (fed(d2, times.last(), values.last()), outs.push(o))
    }
}

/// Each arrival after the first comes before the window opened by the
/// previous one closes, and the last window ends within the clock's range.
pub open spec fn is_burst(times: Seq<u64>, window: u64) -> bool {
    &&& times.len() > 0
    &&& forall|i: int| 0 <= i < times.len() - 1 ==> #[trigger] times[i] < times[i + 1] < times[i] + window
    &&& times.last() + window <= u64::MAX
}

proof fn lemma_burst_steps<T>(d: Debouncer<T>, times: Seq<u64>, values: Seq<T>)
    requires
        d.pending is None,
        d.deadline is None,
        times.len() == values.len(),
        is_burst(times, d.window_ms),
    ensures
        ({
            let (d1, outs) = burst(d, times, values);
            &&& outs.len() == times.len()
            &&& forall|i: int| 0 <= i < outs.len() ==> #[trigger] outs[i] is None
            &&& d1.window_ms == d.window_ms
            &&& d1.pending == Some(values.last())
            &&& d1.deadline == Some((times.last() + d.window_ms) as u64)
        }),
    decreases times.len(),
{
    let w = d.window_ms;
    if times.len() > 1 {
        let pt = times.drop_last();
        let pv = values.drop_last();
        assert(is_burst(pt, w)) by {
            assert forall|i: int| 0 <= i < pt.len() - 1 implies #[trigger] pt[i] < pt[i + 1] < pt[i] + w by {
                assert(pt[i] == times[i] && pt[i + 1] == times[i + 1]);
            }
            assert(times[times.len() - 2] < times.last());
        }
        lemma_burst_steps(d, pt, pv);
        let (d1, outs) = burst(d, pt, pv);
        assert(times[times.len() - 2] < times[times.len() - 1] < times[times.len() - 2] + w);
        assert(polled(d1, times.last()) == (d1, None::<T>));
        let (d2, outs2) = burst(d, times, values);
        assert(outs2 == outs.push(None::<T>));
        assert forall|i: int| 0 <= i < outs2.len() implies #[trigger] outs2[i] is None by {
            if i < outs.len() {
                assert(outs2[i] == outs[i]);
            }
        }
    } else {
        let (d2, outs2) = burst(d, times, values);
        assert(burst(d, times.drop_last(), values.drop_last()) == (d, Seq::<Option<T>>::empty()));
        assert(outs2 =~= seq![None::<T>]);
    }
}

/// A burst published nothing while it lasts. One window after its last
/// arrival the stage publishes that arrival's value, and then, being idle,
/// nothing more: one emission per burst, carrying the latest value.
pub proof fn lemma_burst_emits_last_once<T>(d: Debouncer<T>, times: Seq<u64>, values: Seq<T>, later: u64)
    requires
        d.pending is None,
        d.deadline is None,
        times.len() == values.len(),
        is_burst(times, d.window_ms),
    ensures
        ({
            let (d1, outs) = burst(d, times, values);
            let settle = (times.last() + d.window_ms) as u64;
            let (d2, emitted) = polled(d1, settle);
            &&& forall|i: int| 0 <= i < outs.len() ==> #[trigger] outs[i] is None
            &&& forall|t: u64| t < settle ==> #[trigger] polled(d1, t).1 is None
            &&& emitted == Some(values.last())
            &&& polled(d2, later).1 is None
        }),
{
    lemma_burst_steps(d, times, values);
}

impl<T> Debouncer<T> {
    /// A value is pending exactly while a window is open.
    pub open spec fn wf(&self) -> bool {
        self.pending is Some <==> self.deadline is Some
    }

    /// An idle stage with the given window.
    pub fn new(window_ms: u64) -> (d: Debouncer<T>)
        ensures
            d.wf(),
            d.window_ms == window_ms,
            d.pending is None,
    {
        Debouncer { window_ms, pending: None, deadline: None }
    }

    /// A value arrives at time `now`.
    pub fn on_event(&mut self, now: u64, value: T)
        ensures
            final(self).wf(),
            *final(self) == fed(*old(self), now, value),
    {
        let end = if now > u64::MAX - self.window_ms {
            u64::MAX
        } else {
            now + self.window_ms
        };
        self.pending = Some(value);
        self.deadline = Some(end);
    }

    /// The time at `now`: publishes the pending value if its window has closed.
    pub fn poll(&mut self, now: u64) -> (out: Option<T>)
        requires
            old(self).wf(),
        ensures
            final(self).wf(),
            (*final(self), out) == polled(*old(self), now),
    {
        match self.deadline {
            Some(d) => if now >= d {
                self.deadline = None;
                self.pending.take()
            } else {
                None
            },
            None => None,
        }
    }

    /// How long to wait at `now` before the pending value is due; `None` when
    /// idle, where the caller waits for the next value without a time limit.
    pub fn time_left(&self, now: u64) -> (r: Option<u64>)
        ensures
            self.deadline is None ==> r is None,
            self.deadline matches Some(d) ==> r == Some(if now >= d { 0 } else { (d - now) as u64 }),
    {
        match self.deadline {
            Some(d) => if now >= d {
                Some(0)
            } else {
                Some(d - now)
            },
            None => None,
        }
    }
}

} // verus!
