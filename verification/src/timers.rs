//! Tick-driven timers: coarse delayed actions, polled rather than pushed.
//!
//! A timer is scheduled with a delay, counts down as the host reports
//! elapsed time on each tick, and is observed through `check`, which
//! reports "elapsed" at most once per handle: once a check has returned
//! true the handle is retired and later checks return false.

use vstd::prelude::*;

verus! {

/// One scheduled timer.
pub struct Timer {
    pub id: u64,
    pub remaining_millis: u64,
    pub tag: String,
    pub consumed: bool,
}

/// Mathematical abstraction of [`Timer`].
pub struct TimerModel {
    pub id: u64,
    pub remaining_millis: u64,
    pub tag: Seq<char>,
    pub consumed: bool,
}

impl View for Timer {
    type V = TimerModel;

    open spec fn view(&self) -> TimerModel {
        TimerModel {
            id: self.id,
            remaining_millis: self.remaining_millis,
            tag: self.tag@,
            consumed: self.consumed,
        }
    }
}

impl DeepView for Timer {
    type V = TimerModel;

    open spec fn deep_view(&self) -> TimerModel {
        self.view()
    }
}

/// Mathematical abstraction of [`TimerFacility`].
pub struct TimersModel {
    pub next_id: u64,
    pub timers: Seq<TimerModel>,
}

impl TimersModel {
    /// Well-formedness: handle ids are strictly increasing in allocation
    /// order (hence unique) and all below the next id to be handed out.
    pub open spec fn wf(self) -> bool {
        &&& forall|i: int, j: int|
            0 <= i < j < self.timers.len() ==> self.timers[i].id < self.timers[j].id
        &&& forall|i: int| 0 <= i < self.timers.len() ==> #[trigger] self.timers[i].id < self.next_id
    }
}

/// The delay of `seconds` in the millisecond unit ticks are reported in,
/// saturating at the largest representable value.
pub open spec fn millis_of_seconds(seconds: u64) -> u64 {
    if seconds * 1000 <= u64::MAX {
        (seconds * 1000) as u64
    } else {
        u64::MAX
    }
}

/// One tick of `delta` milliseconds applied to one timer: `remaining`
/// decreases by the delta, stopping at zero; nothing else changes.
pub open spec fn tick_timer(t: TimerModel, delta: u64) -> TimerModel {
    TimerModel {
        remaining_millis: if t.remaining_millis >= delta {
            (t.remaining_millis - delta) as u64
        } else {
            0
        },
        ..t
    }
}

/// Whether a `check` of handle `id` would report "elapsed": some timer has
/// this id, has counted down to zero, and has not been consumed yet.
pub open spec fn timer_fires(m: TimersModel, id: u64) -> bool {
    exists|i: int|
        0 <= i < m.timers.len() && #[trigger] m.timers[i].id == id
            && m.timers[i].remaining_millis == 0 && !m.timers[i].consumed
}

/// The timers after a `check` of handle `id`: an elapsed timer with that id
/// is marked consumed; every other timer is untouched.
pub open spec fn consume_timer(m: TimersModel, id: u64) -> TimersModel {
    TimersModel {
        next_id: m.next_id,
        timers: m.timers.map(
            |i: int, t: TimerModel|
                if t.id == id && t.remaining_millis == 0 {
                    TimerModel { consumed: true, ..t }
                } else {
                    t
                },
        ),
    }
}

/// The timers after one tick of `delta` milliseconds.
pub open spec fn advance_timers(m: TimersModel, delta: u64) -> TimersModel {
    TimersModel {
        next_id: m.next_id,
        timers: m.timers.map(|i: int, t: TimerModel| tick_timer(t, delta)),
    }
}

/// The host-side timer store for one process: allocates monotonically
/// increasing handles and counts scheduled timers down on each tick.
pub struct TimerFacility {
    next_id: u64,
    timers: Vec<Timer>,
}

impl View for TimerFacility {
    type V = TimersModel;

    closed spec fn view(&self) -> TimersModel {
        TimersModel { next_id: self.next_id, timers: self.timers.deep_view() }
    }
}

impl TimerFacility {
    /// An empty facility; the first handle handed out will be `0`.
    pub fn new() -> (t: TimerFacility)
        ensures
            t@.wf(),
            t@.next_id == 0,
            t@.timers == Seq::<TimerModel>::empty(),
    {
        let t = TimerFacility { next_id: 0, timers: Vec::new() };
        proof {
            assert(t@.timers =~= Seq::<TimerModel>::empty());
        }
        t
    }

    /// Schedule a new timer `seconds` from now. Returns the fresh handle;
    /// never blocks. The handle is unique for this facility.
    pub fn schedule(&mut self, seconds: u64, tag: &str) -> (id: u64)
        requires
            old(self)@.wf(),
            old(self)@.next_id < u64::MAX,
        ensures
            final(self)@.wf(),
            id == old(self)@.next_id,
            final(self)@.next_id == old(self)@.next_id + 1,
            final(self)@.timers == old(self)@.timers.push(
                TimerModel {
                    id,
                    remaining_millis: millis_of_seconds(seconds),
                    tag: tag@,
                    consumed: false,
                },
            ),
    {
        let id = self.next_id;
        let remaining_millis: u64 = if seconds <= u64::MAX / 1000 {
            seconds * 1000
        } else {
            u64::MAX
        };
        let tag_owned = String::from_str(tag);
        self.timers.push(
            Timer { id, remaining_millis, tag: tag_owned, consumed: false },
        );
        self.next_id = self.next_id + 1;
        proof {
            assert(self@.timers =~= old(self)@.timers.push(
                TimerModel {
                    id,
                    remaining_millis: millis_of_seconds(seconds),
                    tag: tag@,
                    consumed: false,
                },
            ));
        }
        id
    }

    /// One host tick: every timer's remaining time decreases by `delta_millis`,
    /// stopping at zero.
    pub fn advance(&mut self, delta_millis: u64)
        requires
            old(self)@.wf(),
        ensures
            final(self)@.wf(),
            final(self)@ == advance_timers(old(self)@, delta_millis),
    {
        let n = self.timers.len();
        let mut i: usize = 0;
        while i < n
            invariant
                n == self.timers.len(),
                i <= n,
                self.next_id == old(self).next_id,
                forall|j: int|
                    0 <= j < i ==> self.timers.deep_view()[j] == tick_timer(
                        old(self)@.timers[j],
                        delta_millis,
                    ),
                forall|j: int| i <= j < n ==> self.timers.deep_view()[j] == old(self)@.timers[j],
            decreases n - i,
        {
            let r = self.timers[i].remaining_millis;
            let r2: u64 = if r >= delta_millis {
                r - delta_millis
            } else {
                0
            };
            let ghost prev = self.timers@;
            let ghost pre_dv = self.timers.deep_view();
            {
                let t = &mut self.timers[i];
                t.remaining_millis = r2;
            }
            proof {
                assert forall|j: int| 0 <= j < n implies #[trigger] self.timers.deep_view()[j]
                    == (if j == i as int {
                    tick_timer(old(self)@.timers[j], delta_millis)
                } else {
                    pre_dv[j]
                }) by {
                    assert(self.timers.deep_view()[j] == self.timers@[j]@);
                    assert(pre_dv[j] == prev[j]@);
                    if j != i as int {
                        assert(self.timers@[j] == prev[j]);
                    } else {
                        assert(pre_dv[j] == old(self)@.timers[j]);
                        assert(self.timers@[j]@ == tick_timer(prev[j]@, delta_millis));
                    }
                }
            }
            i += 1;
        }
        proof {
            assert(self@.timers =~= advance_timers(old(self)@, delta_millis).timers);
        }
    }

    /// Poll handle `id`: true exactly when the timer has counted down to
    /// zero and has not reported "elapsed" before; a true answer retires
    /// the handle. An unknown handle reports false.
    pub fn check(&mut self, id: u64) -> (fired: bool)
        requires
            old(self)@.wf(),
        ensures
            final(self)@.wf(),
            fired == timer_fires(old(self)@, id),
            final(self)@ == consume_timer(old(self)@, id),
    {
        let n = self.timers.len();
        let mut i: usize = 0;
        while i < n
            invariant
                n == self.timers.len(),
                old(self)@.wf(),
                self@ == old(self)@,
                i <= n,
                forall|j: int| 0 <= j < i ==> old(self)@.timers[j].id != id,
            decreases n - i,
        {
            if self.timers[i].id == id {
                let fired = self.timers[i].remaining_millis == 0 && !self.timers[i].consumed;
                if self.timers[i].remaining_millis == 0 {
                    let t = &mut self.timers[i];
                    t.consumed = true;
                }
                proof {
                    assert(fired == timer_fires(old(self)@, id)) by {
                        if fired {
                            assert(old(self)@.timers[i as int].id == id);
                        } else {
                            assert forall|j: int|
                                0 <= j < old(self)@.timers.len() && #[trigger] old(
                                    self,
                                )@.timers[j].id == id implies !(old(self)@.timers[j].remaining_millis
                                == 0 && !old(self)@.timers[j].consumed) by {
                                if j < i {
                                } else if j > i {
                                    assert(old(self)@.timers[i as int].id < old(
                                        self,
                                    )@.timers[j].id);
                                }
                            }
                        }
                    }
                    assert(self@.timers =~= consume_timer(old(self)@, id).timers) by {
                        assert forall|j: int|
                            0 <= j < self@.timers.len() implies self@.timers[j] == consume_timer(
                            old(self)@,
                            id,
                        ).timers[j] by {
                            if j != i {
                                if old(self)@.timers[j].id == id {
                                    if j < i as int {
                                        assert(old(self)@.timers[j].id < old(
                                            self,
                                        )@.timers[i as int].id);
                                    } else {
                                        assert(old(self)@.timers[i as int].id < old(
                                            self,
                                        )@.timers[j].id);
                                    }
                                }
                            }
                        }
                    }
                }
                return fired;
            }
            i += 1;
        }
        proof {
            assert(!timer_fires(old(self)@, id));
            assert(self@.timers =~= consume_timer(old(self)@, id).timers);
        }
        false
    }

    /// How many timers this facility holds (consumed handles included).
    pub fn len(&self) -> (n: usize)
        ensures
            n == self@.timers.len(),
    {
        self.timers.len()
    }
}

/// Total elapsed time, in milliseconds, of a run of ticks.
pub open spec fn sum_deltas(deltas: Seq<u64>) -> int
    decreases deltas.len(),
{
    if deltas.len() == 0 {
        0
    } else {
        deltas[0] + sum_deltas(deltas.drop_first())
    }
}

/// One timer after the host has reported the ticks `deltas`, in order.
pub open spec fn run_ticks(t: TimerModel, deltas: Seq<u64>) -> TimerModel
    decreases deltas.len(),
{
    if deltas.len() == 0 {
        t
    } else {
        run_ticks(tick_timer(t, deltas[0]), deltas.drop_first())
    }
}

/// Whether a `check` of this very timer would report "elapsed" now.
pub open spec fn elapsed_now(t: TimerModel) -> bool {
    t.remaining_millis == 0 && !t.consumed
}

pub proof fn lemma_sum_deltas_nonneg(deltas: Seq<u64>)
    ensures
        sum_deltas(deltas) >= 0,
    decreases deltas.len(),
{
    if deltas.len() > 0 {
        lemma_sum_deltas_nonneg(deltas.drop_first());
    }
}

/// Ticks only count a timer down: after any run of ticks the timer keeps
/// its handle, tag and consumed flag, and its remaining time is its
/// original delay less the cumulative elapsed time, stopping at zero.
pub proof fn lemma_run_ticks(t: TimerModel, deltas: Seq<u64>)
    ensures
        run_ticks(t, deltas).id == t.id,
        run_ticks(t, deltas).tag == t.tag,
        run_ticks(t, deltas).consumed == t.consumed,
        run_ticks(t, deltas).remaining_millis as int == (if sum_deltas(deltas)
            >= t.remaining_millis {
            0
        } else {
            t.remaining_millis - sum_deltas(deltas)
        }),
    decreases deltas.len(),
{
    lemma_sum_deltas_nonneg(deltas);
    if deltas.len() > 0 {
        lemma_sum_deltas_nonneg(deltas.drop_first());
        lemma_run_ticks(tick_timer(t, deltas[0]), deltas.drop_first());
    }
}

/// The elapse law for one unconsumed timer: after any prefix of the run of
/// ticks, a check would report "elapsed" exactly when the cumulative
/// elapsed time of that prefix has reached the timer's delay. So the first
/// tick on which the cumulative time reaches the delay is the first tick
/// on which a check reports true.
pub proof fn lemma_timer_elapses_with_cumulative_time(t: TimerModel, deltas: Seq<u64>, k: int)
    requires
        !t.consumed,
        0 <= k <= deltas.len(),
    ensures
        elapsed_now(run_ticks(t, deltas.take(k))) <==> sum_deltas(deltas.take(k))
            >= t.remaining_millis,
{
    lemma_run_ticks(t, deltas.take(k));
}

/// The timers of `m` after the host has reported the ticks `deltas`.
pub open spec fn advance_many(m: TimersModel, deltas: Seq<u64>) -> TimersModel
    decreases deltas.len(),
{
    if deltas.len() == 0 {
        m
    } else {
        advance_many(advance_timers(m, deltas[0]), deltas.drop_first())
    }
}

/// Ticks never revive a consumed handle: if every timer carrying `id` is
/// already consumed, that stays so through any run of ticks.
pub proof fn lemma_consumed_ids_stay_consumed(m: TimersModel, id: u64, deltas: Seq<u64>)
    requires
        forall|i: int|
            0 <= i < m.timers.len() && #[trigger] m.timers[i].id == id ==> m.timers[i].consumed,
    ensures
        forall|i: int|
            0 <= i < advance_many(m, deltas).timers.len() && #[trigger] advance_many(
                m,
                deltas,
            ).timers[i].id == id ==> advance_many(m, deltas).timers[i].consumed,
        !timer_fires(advance_many(m, deltas), id),
    decreases deltas.len(),
{
    if deltas.len() > 0 {
        let m1 = advance_timers(m, deltas[0]);
        assert(forall|i: int|
            0 <= i < m1.timers.len() && #[trigger] m1.timers[i].id == id
                ==> m1.timers[i].consumed);
        lemma_consumed_ids_stay_consumed(m1, id, deltas.drop_first());
    }
}

/// A handle whose check has reported "elapsed" once is retired: however
/// many further ticks pass, no later check of the same handle reports
/// "elapsed" again.
pub proof fn lemma_retired_handle_stays_retired(m: TimersModel, id: u64, deltas: Seq<u64>)
    requires
        m.wf(),
        timer_fires(m, id),
    ensures
        !timer_fires(advance_many(consume_timer(m, id), deltas), id),
{
    let c = consume_timer(m, id);
    let w = choose|i: int|
        0 <= i < m.timers.len() && #[trigger] m.timers[i].id == id
            && m.timers[i].remaining_millis == 0 && !m.timers[i].consumed;
    assert forall|i: int|
        0 <= i < c.timers.len() && #[trigger] c.timers[i].id == id implies c.timers[i].consumed by {
        if i != w {
            if i < w {
                assert(m.timers[i].id < m.timers[w].id);
            } else {
                assert(m.timers[w].id < m.timers[i].id);
            }
        }
    }
    lemma_consumed_ids_stay_consumed(c, id, deltas);
}

} // verus!
