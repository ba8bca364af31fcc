//! A tick scheduler: periodic jobs counted in ticks, and the pacing that
//! keeps ticks aligned to a target rate.
//!
//! The scheduler never reads a clock and never sleeps. Its caller passes the
//! current time in microseconds, sleeps for the pause that `update` returns,
//! and reports the time of waking to `wake`.

use vstd::prelude::*;
use crate::types::Fault;

verus! {

/// Microseconds in a minute.
pub const MINUTE_US: u64 = 60_000_000;

/// Number of jobs and of due payloads a new scheduler reserves room for.
pub const CAPACITY: usize = 100;

/// A periodic job: `msg` falls due every `mt` ticks; `ct` counts the ticks
/// since it last fell due.
#[derive(Debug)]
pub struct Job<T> {
    pub ct: usize,
    pub mt: usize,
    pub msg: T,
}

impl<T> Job<T> {
    /// The counter lies below the period, so the period is positive.
    pub open spec fn wf(self) -> bool {
        self.ct < self.mt
    }

    /// Whether the next tick brings the job to its period.
    pub open spec fn fires(self) -> bool {
        self.ct + 1 == self.mt
    }

    /// The job after one tick.
    pub open spec fn advance(self) -> Job<T> {
        Job { ct: if self.fires() { 0 } else { (self.ct + 1) as usize }, mt: self.mt, msg: self.msg }
    }

    /// The job after `n` ticks.
    pub open spec fn after(self, n: nat) -> Job<T>
        decreases n,
    {
        if n == 0 {
            self
        } else {
            self.after((n - 1) as nat).advance()
        }
    }

    /// On how many of the next `n` ticks the job falls due.
    pub open spec fn fire_count(self, n: nat) -> nat
        decreases n,
    {
        if n == 0 {
            0
        } else {
            self.fire_count((n - 1) as nat) + if self.after((n - 1) as nat).fires() {
                1nat
            } else {
                0nat
            }
        }
    }
}

/// Every job's counter lies below its period.
pub open spec fn jobs_wf<T>(jobs: Seq<Job<T>>) -> bool {
    forall|i: int| 0 <= i < jobs.len() ==> (#[trigger] jobs[i]).wf()
}

/// The job list after one tick.
pub open spec fn ticked<T>(jobs: Seq<Job<T>>) -> Seq<Job<T>> {
    Seq::new(jobs.len(), |i: int| jobs[i].advance())
}

/// The job list after `n` ticks.
pub open spec fn ticks<T>(jobs: Seq<Job<T>>, n: nat) -> Seq<Job<T>>
    decreases n,
{
    if n == 0 {
        jobs
    } else {
        ticked(ticks(jobs, (n - 1) as nat))
    }
}

/// The payloads that the next tick makes due among the first `n` jobs, in
/// registration order.
pub open spec fn due_prefix<T>(jobs: Seq<Job<T>>, n: int) -> Seq<T>
    decreases n,
{
    if n <= 0 {
        Seq::empty()
    } else if jobs[n - 1].fires() {
        due_prefix(jobs, n - 1).push(jobs[n - 1].msg)
    } else {
        due_prefix(jobs, n - 1)
    }
}

/// The payloads that the next tick makes due, in registration order.
pub open spec fn due<T>(jobs: Seq<Job<T>>) -> Seq<T> {
    due_prefix(jobs, jobs.len() as int)
}

/// What `n` ticks append to the queue, when nothing empties it meanwhile.
pub open spec fn queued<T>(jobs: Seq<Job<T>>, n: nat) -> Seq<T>
    decreases n,
{
    if n == 0 {
        Seq::empty()
    } else {
        queued(jobs, (n - 1) as nat) + due(ticks(jobs, (n - 1) as nat))
    }
}

/// The place in `due(jobs)` that job `i` takes when it fires: the number of
/// jobs registered before it that fire on the same tick.
pub open spec fn rank<T>(jobs: Seq<Job<T>>, i: int) -> int {
    due_prefix(jobs, i).len() as int
}

/// Whether a tempo and a tick resolution give a tick duration: both are
/// positive and their product fits a signed 32-bit integer.
pub open spec fn valid_rate(bpm: i32, num_ticks: i32) -> bool {
    bpm > 0 && num_ticks > 0 && bpm * num_ticks <= i32::MAX
}

/// Microseconds per tick at a valid rate, rounded down.
pub open spec fn rate_duration(bpm: i32, num_ticks: i32) -> u64 {
    (MINUTE_US as int / (bpm * num_ticks)) as u64
}

/// How long to sleep at `now` so that the tick that began at `last` lasts
/// `tick_duration`: the part of the tick not yet used up, and nothing when
/// the tick has already overrun. All three are in microseconds.
pub open spec fn pause_for(tick_duration: u64, last: u64, now: u64) -> u64 {
    let elapsed: int = if now >= last {
        now - last
    } else {
        0
    };
    if elapsed >= tick_duration {
        0
    } else {
        (tick_duration - elapsed) as u64
    }
}

/// What a scheduler holds, as mathematical values.
pub struct SchedulerView<T> {
    /// Length of a tick in microseconds.
    pub tick_duration: u64,
    /// When the current tick began, in microseconds of the caller's clock.
    pub last_time: u64,
    /// The registered jobs in registration order.
    pub jobs: Seq<Job<T>>,
    /// Payloads that fell due and were not consumed yet, oldest first.
    pub queue: Seq<T>,
}

/// Tick rate, timing, the registered jobs and the queue of due payloads.
pub struct Scheduler<T> {
    tick_duration: u64,
    last_time: u64,
    jobs: Vec<Job<T>>,
    queue: Vec<T>,
}

impl<T> View for Scheduler<T> {
    type V = SchedulerView<T>;

    closed spec fn view(&self) -> SchedulerView<T> {
        SchedulerView {
            tick_duration: self.tick_duration,
            last_time: self.last_time,
            jobs: self.jobs@,
            queue: self.queue@,
        }
    }
}

impl<T: Copy> Scheduler<T> {
    /// Every registered job's counter lies below its period.
    pub open spec fn wf(self) -> bool {
        jobs_wf(self@.jobs)
    }

    /// A scheduler with no jobs, nothing due, a tick duration of zero and a
    /// reference instant of zero.
    pub fn new() -> (s: Scheduler<T>)
        ensures
            s.wf(),
            s@ == (SchedulerView::<T> {
                tick_duration: 0,
                last_time: 0,
                jobs: Seq::empty(),
                queue: Seq::empty(),
            }),
    {
        let jobs = Vec::with_capacity(CAPACITY);
        let queue = Vec::with_capacity(CAPACITY);
        Scheduler { tick_duration: 0, last_time: 0, jobs: jobs, queue: queue }
    }

    /// Checks at run time that every job's counter lies below its period.
    pub fn is_valid(&self) -> (b: bool)
        ensures
            b == self.wf(),
    {
        let mut i: usize = 0;
        while i < self.jobs.len()
            invariant
                i <= self.jobs@.len(),
                forall|k: int| 0 <= k < i ==> (#[trigger] self.jobs@[k]).wf(),
            decreases self.jobs@.len() - i,
        {
            if self.jobs[i].ct >= self.jobs[i].mt {
                return false;
            }
            i += 1;
        }
        true
    }

    /// Whether payloads are waiting in the queue.
    pub fn has_events(&self) -> (b: bool)
        ensures
            b == (self@.queue.len() > 0),
    {
        self.queue.len() > 0
    }

    /// The payloads waiting in the queue, oldest first.
    pub fn events(&self) -> (q: &Vec<T>)
        ensures
            q@ == self@.queue,
    {
        &self.queue
    }

    /// The registered jobs in registration order.
    pub fn jobs(&self) -> (j: &Vec<Job<T>>)
        ensures
            j@ == self@.jobs,
    {
        &self.jobs
    }

    /// Length of a tick in microseconds.
    pub fn tick_duration(&self) -> (d: u64)
        ensures
            d == self@.tick_duration,
    {
        self.tick_duration
    }

    /// Empties the queue.
    pub fn clear_queue(&mut self)
        ensures
            final(self)@ == (SchedulerView { queue: Seq::empty(), ..old(self)@ }),
    {
        self.queue.clear();
    }

    /// Registers a job that falls due every `tick_amt` ticks, counted from
    /// now. Jobs are never merged: two may share a period or a payload.
    pub fn interval(&mut self, tick_amt: usize, msg: T)
        requires
            tick_amt > 0,
        ensures
            final(self)@ == (SchedulerView {
                jobs: old(self)@.jobs.push(Job { ct: 0, mt: tick_amt, msg: msg }),
                ..old(self)@
            }),
            old(self).wf() ==> final(self).wf(),
    {
        self.jobs.push(Job { ct: 0, mt: tick_amt, msg: msg });
    }

    /// Sets the tick duration to a minute divided by `bpm * num_ticks`,
    /// rounded down to whole microseconds. A rate that is not valid is
    /// refused: the tick duration becomes zero and the fault is reported.
    pub fn set_rate(&mut self, bpm: i32, num_ticks: i32) -> (r: Result<(), Fault>)
        ensures
            valid_rate(bpm, num_ticks) ==> r == Ok::<(), Fault>(()) && final(self)@ == (SchedulerView {
                tick_duration: rate_duration(bpm, num_ticks),
                ..old(self)@
            }),
            !valid_rate(bpm, num_ticks) ==> r == Err::<(), Fault>(Fault::Configuration)
                && final(self)@ == (SchedulerView { tick_duration: 0, ..old(self)@ }),
    {
        if bpm <= 0 || num_ticks <= 0 {
            self.tick_duration = 0;
            return Err(Fault::Configuration);
        }
        assert(0 < bpm * num_ticks <= 0x7fff_ffff * 0x7fff_ffff) by (nonlinear_arith)
            requires
                0 < bpm <= 0x7fff_ffff,
                0 < num_ticks <= 0x7fff_ffff,
        ;
        let beats: u64 = bpm as u64;
        let per_beat: u64 = num_ticks as u64;
        let product: u64 = beats * per_beat;
        if product > 0x7fff_ffff {
            self.tick_duration = 0;
            return Err(Fault::Configuration);
        }
        self.tick_duration = MINUTE_US / product;
        Ok(())
    }

    /// Advances the clock by one tick and says how long to sleep.
    ///
    /// Every job's counter goes up by one; each job that reaches its period
    /// has its counter reset and its payload appended to the queue, in
    /// registration order. The result is the pause, in microseconds, that
    /// fills the rest of the tick given that it is `now`. A tick that has
    /// overrun gets no pause and is not made up for later.
    pub fn update(&mut self, now: u64) -> (pause: u64)
        requires
            old(self).wf(),
        ensures
            final(self).wf(),
            final(self)@ == (SchedulerView {
                jobs: ticked(old(self)@.jobs),
                queue: old(self)@.queue + due(old(self)@.jobs),
                ..old(self)@
            }),
            pause == pause_for(old(self)@.tick_duration, old(self)@.last_time, now),
    {
        let n = self.jobs.len();
        let mut i: usize = 0;
        while i < n
            invariant
                i <= n,
                n == self.jobs@.len(),
                self.jobs@.len() == old(self).jobs@.len(),
                self.tick_duration == old(self).tick_duration,
                self.last_time == old(self).last_time,
                jobs_wf(old(self).jobs@),
                forall|k: int| 0 <= k < i ==> self.jobs@[k] == (#[trigger] old(self).jobs@[k]).advance(),
                forall|k: int| i <= k < n ==> self.jobs@[k] == #[trigger] old(self).jobs@[k],
                self.queue@ == old(self).queue@ + due_prefix(old(self).jobs@, i as int),
            decreases n - i,
        {
            assert(old(self).jobs@[i as int].wf());
            self.jobs[i].ct += 1;
            if self.jobs[i].ct == self.jobs[i].mt {
                self.jobs[i].ct = 0;
                let m = self.jobs[i].msg;
                self.queue.push(m);
            }
            i += 1;
        }
        assert(self.jobs@ =~= ticked(old(self).jobs@));
        let elapsed: u64 = if now >= self.last_time {
            now - self.last_time
        } else {
            0
        };
        if elapsed >= self.tick_duration {
            0
        } else {
            self.tick_duration - elapsed
        }
    }

    /// Records `now`, the time of waking in microseconds, as the instant
    /// from which the next tick is measured.
    pub fn wake(&mut self, now: u64)
        ensures
            final(self)@ == (SchedulerView { last_time: now, ..old(self)@ }),
    {
        self.last_time = now;
    }
}

/// A job that has just fallen due, or was just registered, stays silent for
/// `k` ticks when `k` is less than its period, and counts them.
proof fn lemma_counting<T>(j: Job<T>, k: nat)
    requires
        j.ct == 0,
        k < j.mt,
    ensures
        j.after(k) == (Job { ct: k as usize, mt: j.mt, msg: j.msg }),
        j.fire_count(k) == 0,
    decreases k,
{
    if k > 0 {
        lemma_counting(j, (k - 1) as nat);
    }
}

/// Once per period: a job with period `P` whose counter is zero falls due on
/// exactly one of the next `P` ticks, the last of them, and its counter is
/// zero again afterwards.
pub proof fn law_fires_once_per_period<T>(j: Job<T>)
    requires
        j.ct == 0,
        j.mt > 0,
    ensures
        j.fire_count(j.mt as nat) == 1,
        j.after((j.mt - 1) as nat).fires(),
        forall|k: nat| k < j.mt - 1 ==> !(#[trigger] j.after(k)).fires(),
        j.after(j.mt as nat) == j,
{
    lemma_counting(j, (j.mt - 1) as nat);
    assert forall|k: nat| k < j.mt - 1 implies !(#[trigger] j.after(k)).fires() by {
        lemma_counting(j, k);
    }
}

/// Ticking a job list ticks each job on its own: after `n` ticks the list
/// has its length, and job `i` is what `n` ticks make of it alone.
pub proof fn law_ticks_jobwise<T>(jobs: Seq<Job<T>>, n: nat)
    ensures
        ticks(jobs, n).len() == jobs.len(),
        forall|i: int| 0 <= i < jobs.len() ==> (#[trigger] ticks(jobs, n)[i]) == jobs[i].after(n),
    decreases n,
{
    if n > 0 {
        law_ticks_jobwise(jobs, (n - 1) as nat);
    }
}

/// Once per period, in a scheduler: whatever else is registered, a job with
/// period `P` whose counter is zero adds no payload to the queue on the next
/// `P - 1` ticks, adds its own payload on tick `P`, at its rank among the
/// payloads of that tick, and has its counter back at zero after it.
pub proof fn law_one_entry_per_period<T>(jobs: Seq<Job<T>>, i: int)
    requires
        0 <= i < jobs.len(),
        jobs[i].ct == 0,
        jobs[i].mt > 0,
    ensures
        forall|k: nat| k < jobs[i].mt - 1 ==> !(#[trigger] ticks(jobs, k))[i].fires(),
        ({
            let last = ticks(jobs, (jobs[i].mt - 1) as nat);
            &&& last[i].fires()
            &&& 0 <= rank(last, i) < due(last).len()
            &&& due(last)[rank(last, i)] == jobs[i].msg
        }),
        ticks(jobs, jobs[i].mt as nat)[i].ct == 0,
{
    let j = jobs[i];
    law_fires_once_per_period(j);
    assert forall|k: nat| k < j.mt - 1 implies !(#[trigger] ticks(jobs, k))[i].fires() by {
        law_ticks_jobwise(jobs, k);
    }
    let last = ticks(jobs, (j.mt - 1) as nat);
    law_ticks_jobwise(jobs, (j.mt - 1) as nat);
    law_ticks_jobwise(jobs, j.mt as nat);
    lemma_counting(j, (j.mt - 1) as nat);
    lemma_due_holds(last, i, last.len() as int);
}

/// A scheduler with a single job of period `P` whose counter is zero has
/// nothing in its queue after fewer than `P` ticks.
proof fn lemma_single_job_waits<T>(j: Job<T>, k: nat)
    requires
        j.ct == 0,
        k < j.mt,
    ensures
        queued(seq![j], k) == Seq::<T>::empty(),
    decreases k,
{
    if k > 0 {
        lemma_single_job_waits(j, (k - 1) as nat);
        lemma_counting(j, (k - 1) as nat);
        law_ticks_jobwise(seq![j], (k - 1) as nat);
        reveal_with_fuel(due_prefix, 2);
    }
}

/// Once per period, on its own: a scheduler whose only job has period `P`
/// and a counter of zero holds exactly that job's payload, once, after `P`
/// ticks.
pub proof fn law_single_job_queues_once<T>(j: Job<T>)
    requires
        j.ct == 0,
        j.mt > 0,
    ensures
        queued(seq![j], j.mt as nat) == seq![j.msg],
        ticks(seq![j], j.mt as nat) == seq![j],
{
    let last = (j.mt - 1) as nat;
    lemma_single_job_waits(j, last);
    lemma_counting(j, last);
    law_ticks_jobwise(seq![j], last);
    law_ticks_jobwise(seq![j], j.mt as nat);
    law_fires_once_per_period(j);
    reveal_with_fuel(due_prefix, 2);
}

/// The due payloads among the first `m` jobs open those among the first `n`,
/// for `m <= n`.
proof fn lemma_due_grows<T>(jobs: Seq<Job<T>>, m: int, n: int)
    requires
        0 <= m <= n,
    ensures
        due_prefix(jobs, m).len() <= due_prefix(jobs, n).len(),
        forall|p: int|
            0 <= p < due_prefix(jobs, m).len() ==> due_prefix(jobs, n)[p] == due_prefix(jobs, m)[p],
    decreases n - m,
{
    if m < n {
        lemma_due_grows(jobs, m, n - 1);
    }
}

/// A firing job's payload stands at its rank in the due payloads of every
/// prefix that includes the job.
proof fn lemma_due_holds<T>(jobs: Seq<Job<T>>, i: int, n: int)
    requires
        0 <= i < n,
        jobs[i].fires(),
    ensures
        rank(jobs, i) < due_prefix(jobs, n).len(),
        due_prefix(jobs, n)[rank(jobs, i)] == jobs[i].msg,
{
    lemma_due_grows(jobs, i + 1, n);
}

/// Registration order: when two jobs fall due on the same tick, the payload
/// of the one registered first stands before the payload of the other in
/// what that tick appends to the queue, each at its own rank.
pub proof fn law_registration_order<T>(jobs: Seq<Job<T>>, a: int, b: int)
    requires
        0 <= a < b < jobs.len(),
        jobs[a].fires(),
        jobs[b].fires(),
    ensures
        0 <= rank(jobs, a) < rank(jobs, b) < due(jobs).len(),
        due(jobs)[rank(jobs, a)] == jobs[a].msg,
        due(jobs)[rank(jobs, b)] == jobs[b].msg,
{
    lemma_due_holds(jobs, a, jobs.len() as int);
    lemma_due_holds(jobs, b, jobs.len() as int);
    lemma_due_holds(jobs, a, b);
}

/// Two jobs of equal period registered together, first `a` and then `b`, on
/// a scheduler that holds no other job: every tick appends either nothing or
/// the two payloads, `a`'s first.
pub proof fn law_equal_periods_in_order<T>(a: Job<T>, b: Job<T>, n: nat)
    requires
        a.wf(),
        a.mt == b.mt,
        a.ct == b.ct,
    ensures
        ({
            let now = ticks(seq![a, b], n);
            due(now) == if now[0].fires() {
                seq![a.msg, b.msg]
            } else {
                Seq::<T>::empty()
            }
        }),
{
    let jobs = seq![a, b];
    let now = ticks(jobs, n);
    law_ticks_jobwise(jobs, n);
    lemma_in_step(a, b, n);
    reveal_with_fuel(due_prefix, 3);
    assert(now[0] == a.after(n));
    assert(now[1] == b.after(n));
}

/// Jobs with equal period and equal counter keep equal counters, and each
/// keeps its payload and period.
proof fn lemma_in_step<T>(a: Job<T>, b: Job<T>, n: nat)
    requires
        a.mt == b.mt,
        a.ct == b.ct,
    ensures
        a.after(n).ct == b.after(n).ct,
        a.after(n).mt == a.mt,
        b.after(n).mt == b.mt,
        a.after(n).msg == a.msg,
        b.after(n).msg == b.msg,
    decreases n,
{
    if n > 0 {
        lemma_in_step(a, b, (n - 1) as nat);
    }
}

} // verus!
