//! The clock: when the timer of a step length fires first, and how far the
//! current step has run. Firings are anchored to the wall clock, so that
//! late timers do not add up.

use vstd::prelude::*;
use crate::entry::EntryView;
use crate::totp::spec_remaining_seconds;

verus! {

/// Milliseconds in a second.
pub const MILLIS: u64 = 1000;

/// A length of time: whole seconds and the milliseconds beyond them.
#[derive(Clone, Copy, Debug, PartialEq, Eq, Structural)]
pub struct Span {
    pub secs: u64,
    /// Less than a thousand.
    pub millis: u32,
}

impl Span {
    pub open spec fn total_millis(self) -> int {
        self.secs * MILLIS + self.millis
    }
}

/// The timer of one step length, as seen at one instant.
#[derive(Clone, Copy, Debug, PartialEq, Eq, Structural)]
pub struct Schedule {
    /// Seconds between two firings.
    pub step: u64,
    /// Wall-clock time of the instant, in seconds.
    pub time: u64,
    /// How far the current step has run.
    pub elapsed: Span,
    /// How long until the first firing, at the next step boundary.
    pub first_delay: Span,
}

/// One firing of a timer, at a step boundary or at subscription.
#[derive(Clone, Copy, Debug, PartialEq, Eq, Structural)]
pub struct Firing {
    /// Step length of the timer that fired.
    pub step: u64,
    /// Monotonic instant, in milliseconds, at which the current step began.
    pub instant: u64,
    /// Wall-clock time in seconds.
    pub time: u64,
}

/// The schedule of a step length at `now_millis`, the wall-clock time in
/// milliseconds.
pub open spec fn spec_schedule(step: u64, now_millis: u64) -> Schedule
    recommends
        step > 0,
{
    let secs = now_millis / MILLIS;
    let sub = now_millis % MILLIS;
    let into = secs % step;
    Schedule {
        step,
        time: secs,
        elapsed: Span { secs: into, millis: sub as u32 },
        first_delay: if sub == 0 {
            Span { secs: (step - into) as u64, millis: 0 }
        } else {
            Span { secs: (step - into - 1) as u64, millis: (MILLIS - sub) as u32 }
        },
    }
}

/// The first firing falls on a step boundary of the wall clock, and so does
/// every later one, a whole number of steps after it. Before it lies what
/// is left of the current step.
pub proof fn lemma_schedule_anchored(step: u64, now_millis: u64, n: nat)
    requires
        step > 0,
    ensures
        ({
            let s = spec_schedule(step, now_millis);
            &&& s.elapsed.total_millis() == (now_millis as int) % (step * MILLIS)
            &&& s.elapsed.total_millis() + s.first_delay.total_millis() == step * MILLIS
            &&& 1 <= s.first_delay.total_millis() <= step * MILLIS
            &&& (now_millis + s.first_delay.total_millis() + n * (step * MILLIS)) % (step * MILLIS) == 0
            &&& now_millis % MILLIS == 0 ==> s.first_delay.secs == spec_remaining_seconds(s.time, step)
                && s.first_delay.millis == 0
        }),
{
    let secs = (now_millis / MILLIS) as int;
    let sub = (now_millis % MILLIS) as int;
    let q = secs / (step as int);
    let into = secs % (step as int);
    let period = step * MILLIS;
    let s = spec_schedule(step, now_millis);
    vstd::arithmetic::div_mod::lemma_fundamental_div_mod(secs, step as int);
    assert(now_millis == period * q + (into * MILLIS + sub)) by (nonlinear_arith)
        requires
            now_millis == MILLIS * secs + sub,
            secs == step * q + into,
            period == step * MILLIS,
    ;
    assert(0 <= into * MILLIS + sub < period) by (nonlinear_arith)
        requires
            0 <= into < step,
            0 <= sub < MILLIS,
            period == step * MILLIS,
    ;
    vstd::arithmetic::div_mod::lemma_fundamental_div_mod_converse(
        now_millis as int,
        period,
        q,
        into * MILLIS + sub,
    );
    assert(s.elapsed.total_millis() == into * MILLIS + sub);
    assert(s.first_delay.total_millis() == period - (into * MILLIS + sub)) by (nonlinear_arith)
        requires
            s.first_delay.total_millis() == if sub == 0 {
                (step - into) * MILLIS
            } else {
                (step - into - 1) * MILLIS + (MILLIS - sub)
            },
            period == step * MILLIS,
    ;
    assert(now_millis + s.first_delay.total_millis() + n * period == period * (q + 1 + n))
        by (nonlinear_arith)
        requires
            now_millis == period * q + (into * MILLIS + sub),
            s.first_delay.total_millis() == period - (into * MILLIS + sub),
    ;
    vstd::arithmetic::div_mod::lemma_fundamental_div_mod_converse(
        now_millis + s.first_delay.total_millis() + n * period,
        period,
        q + 1 + n,
        0,
    );
}

/// The schedule of the timer for `step` at the wall-clock time
/// `now_millis`, in milliseconds.
pub fn schedule(step: u64, now_millis: u64) -> (s: Schedule)
    requires
        step > 0,
    ensures
        s == spec_schedule(step, now_millis),
        s.elapsed.millis < MILLIS,
        s.first_delay.millis < MILLIS,
        s.elapsed.total_millis() + s.first_delay.total_millis() == step * MILLIS,
        1 <= s.first_delay.total_millis(),
        (now_millis + s.first_delay.total_millis()) % (step * MILLIS) == 0,
{
    let secs = now_millis / MILLIS;
    let sub = now_millis % MILLIS;
    let into = secs % step;
    proof {
        lemma_schedule_anchored(step, now_millis, 0);
    }
    let first_delay = if sub == 0 {
        Span { secs: step - into, millis: 0 }
    } else {
        Span { secs: step - into - 1, millis: (MILLIS - sub) as u32 }
    };
    Schedule { step, time: secs, elapsed: Span { secs: into, millis: sub as u32 }, first_delay }
}

impl Schedule {
    /// The firing that a new subscription sends at once, so that a code is
    /// shown before the first boundary: it carries the current time, and
    /// the instant at which the current step began, `now_instant` less the
    /// time elapsed, or zero where the monotonic clock is younger than that.
    pub fn immediate(&self, now_instant: u64) -> (firing: Firing)
        ensures
            firing.step == self.step,
            firing.time == self.time,
            firing.instant == if now_instant >= self.elapsed.total_millis() {
                now_instant - self.elapsed.total_millis()
            } else {
                0
            },
    {
        let elapsed = match self.elapsed.secs.checked_mul(MILLIS) {
            Some(whole) => whole.checked_add(self.elapsed.millis as u64),
            None => None,
        };
        let instant = match elapsed {
            Some(elapsed) => if now_instant >= elapsed {
                now_instant - elapsed
            } else {
                0
            },
            None => 0,
        };
        Firing { step: self.step, instant, time: self.time }
    }
}

/// The step lengths in use, each once, in the order of their first entry.
/// A step of zero has no timer.
pub open spec fn distinct_steps(entries: Seq<EntryView>) -> Seq<u64>
    decreases entries.len(),
{
    if entries.len() == 0 {
        Seq::empty()
    } else {
        let before = distinct_steps(entries.drop_last());
        let step = entries.last().step;
        if step == 0 || before.contains(step) {
            before
        } else {
            before.push(step)
        }
    }
}

/// Every step length in use has exactly one timer, and no timer is without
/// an entry.
pub proof fn lemma_distinct_steps(entries: Seq<EntryView>)
    ensures
        distinct_steps(entries).no_duplicates(),
        forall|step: u64| #[trigger]
            distinct_steps(entries).contains(step) <==> step > 0 && exists|i: int|
                0 <= i < entries.len() && #[trigger] entries[i].step == step,
    decreases entries.len(),
{
    if entries.len() > 0 {
        let head = entries.drop_last();
        lemma_distinct_steps(head);
        let before = distinct_steps(head);
        let last = entries.last().step;
        let all = distinct_steps(entries);
        assert forall|step: u64| #[trigger]
            all.contains(step) <==> step > 0 && exists|i: int|
                0 <= i < entries.len() && #[trigger] entries[i].step == step by {
            if all.contains(step) {
                if before.contains(step) {
                    let i = choose|i: int| 0 <= i < head.len() && #[trigger] head[i].step == step;
                    assert(entries[i].step == step);
                } else {
                    let k = choose|k: int| 0 <= k < all.len() && all[k] == step;
                    if k < before.len() {
                        assert(before[k] == step);
                    }
                    assert(step == last);
                    assert(entries[entries.len() - 1].step == step);
                }
            }
            if step > 0 && exists|i: int| 0 <= i < entries.len() && #[trigger] entries[i].step == step {
                let i = choose|i: int| 0 <= i < entries.len() && #[trigger] entries[i].step == step;
                if i < head.len() {
                    assert(head[i].step == step);
                    assert(before.contains(step));
                    let k = choose|k: int| 0 <= k < before.len() && before[k] == step;
                    assert(all[k] == step);
                } else {
                    assert(step == last);
                    if before.contains(step) {
                    } else {
                        assert(all[all.len() - 1] == step);
                    }
                }
            }
        }
    }
}

} // verus!
