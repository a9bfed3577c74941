//! Aggregate CPU time counters from the `cpu` line of `/proc/stat`.
use vstd::prelude::*;

verus! {

/// CPU time counters, in clock ticks.
#[derive(Debug, Clone, Copy, PartialEq, Eq, Default, Structural)]
pub struct CpuTimes {
    pub user: u64,
    pub nice: u64,
    pub system: u64,
    pub idle: u64,
    pub iowait: u64,
    pub irq: u64,
    pub softirq: u64,
    pub steal: u64,
}

/// The field at `i`, or `0` when there is none.
pub open spec fn field_or_zero(fields: Seq<u64>, i: int) -> u64 {
    if 0 <= i < fields.len() { fields[i] } else { 0 }
}

/// The counters that a list of numbers gives, in order, missing ones zero.
pub open spec fn cpu_times_from(fields: Seq<u64>) -> CpuTimes {
    CpuTimes {
        user: field_or_zero(fields, 0),
        nice: field_or_zero(fields, 1),
        system: field_or_zero(fields, 2),
        idle: field_or_zero(fields, 3),
        iowait: field_or_zero(fields, 4),
        irq: field_or_zero(fields, 5),
        softirq: field_or_zero(fields, 6),
        steal: field_or_zero(fields, 7),
    }
}

/// The sum of all counters.
pub open spec fn total_of(t: CpuTimes) -> int {
    t.user + t.nice + t.system + t.idle + t.iowait + t.irq + t.softirq + t.steal
}

/// The idle counters: idle and iowait.
pub open spec fn idle_total_of(t: CpuTimes) -> int {
    t.idle + t.iowait
}

/// The ticks elapsed from `prev` to `cur`, zero when the counters went back.
pub open spec fn total_ticks_since(cur: CpuTimes, prev: CpuTimes) -> int {
    if total_of(cur) >= total_of(prev) { total_of(cur) - total_of(prev) } else { 0 }
}

/// The busy (not idle) ticks elapsed from `prev` to `cur`: the elapsed ticks
/// less the elapsed idle ticks, each taken as zero when it went back.
pub open spec fn busy_ticks_since(cur: CpuTimes, prev: CpuTimes) -> int {
    let idle_delta = if idle_total_of(cur) >= idle_total_of(prev) {
        idle_total_of(cur) - idle_total_of(prev)
    } else {
        0
    };
    if total_ticks_since(cur, prev) >= idle_delta { total_ticks_since(cur, prev) - idle_delta } else { 0 }
}

fn field(fields: &[u64], i: usize) -> (r: u64)
    ensures
        r == field_or_zero(fields@, i as int),
{
    if i < fields.len() {
        fields[i]
    } else {
        0
    }
}

impl CpuTimes {
    /// The counters from the numbers of a `cpu` line, in order; missing
    /// ones count as zero and extra ones are ignored.
    pub fn from_fields(fields: &[u64]) -> (r: CpuTimes)
        ensures
            r == cpu_times_from(fields@),
            r.user == field_or_zero(fields@, 0),
            r.nice == field_or_zero(fields@, 1),
            r.system == field_or_zero(fields@, 2),
            r.idle == field_or_zero(fields@, 3),
            r.iowait == field_or_zero(fields@, 4),
            r.irq == field_or_zero(fields@, 5),
            r.softirq == field_or_zero(fields@, 6),
            r.steal == field_or_zero(fields@, 7),
    {
        CpuTimes {
            user: field(fields, 0),
            nice: field(fields, 1),
            system: field(fields, 2),
            idle: field(fields, 3),
            iowait: field(fields, 4),
            irq: field(fields, 5),
            softirq: field(fields, 6),
            steal: field(fields, 7),
        }
    }

    /// Whether the sum of all counters fits in 64 bits.
    pub fn total_fits(&self) -> (r: bool)
        ensures
            r == (total_of(*self) <= u64::MAX),
    {
        let sum: u128 = self.user as u128 + self.nice as u128 + self.system as u128 + self.idle as u128
            + self.iowait as u128 + self.irq as u128 + self.softirq as u128 + self.steal as u128;
        sum <= u64::MAX as u128
    }

    /// The sum of all counters. The sum must fit in 64 bits.
    pub fn total(&self) -> (r: u64)
        requires
            total_of(*self) <= u64::MAX,
        ensures
            r == total_of(*self),
    {
        self.user + self.nice + self.system + self.idle + self.iowait + self.irq + self.softirq + self.steal
    }

    /// The idle counters (idle and iowait). The sum must fit in 64 bits.
    pub fn idle_total(&self) -> (r: u64)
        requires
            idle_total_of(*self) <= u64::MAX,
        ensures
            r == idle_total_of(*self),
    {
        self.idle + self.iowait
    }

    /// The busy and total ticks elapsed since `prev`: `(busy, total)`, each
    /// counter difference taken as zero when it went backwards. CPU usage is
    /// `busy / total` (zero when `total` is zero).
    pub fn busy_and_total_since(&self, prev: &CpuTimes) -> (r: (u64, u64))
        requires
            total_of(*self) <= u64::MAX,
            total_of(*prev) <= u64::MAX,
        ensures
            r.1 == total_ticks_since(*self, *prev),
            r.0 == busy_ticks_since(*self, *prev),
            r.0 <= r.1,
    {
        let total_delta = self.total().saturating_sub(prev.total());
        let idle_delta = self.idle_total().saturating_sub(prev.idle_total());
        let busy_delta = total_delta.saturating_sub(idle_delta);
        (busy_delta, total_delta)
    }
}

/// The idle counters never exceed the total.
pub proof fn lemma_idle_within_total(t: CpuTimes)
    ensures
        idle_total_of(t) <= total_of(t),
{
}

/// All counters at zero.
pub open spec fn no_ticks() -> CpuTimes {
    CpuTimes { user: 0, nice: 0, system: 0, idle: 0, iowait: 0, irq: 0, softirq: 0, steal: 0 }
}

/// Every counter counts toward the total exactly once, and only idle and
/// iowait count as idle: counters that hold a single tick count alone give
/// that count, and counters add up.
pub proof fn lemma_total_counts_every_counter(x: u64, a: CpuTimes, b: CpuTimes, s: CpuTimes)
    requires
        s.user == a.user + b.user,
        s.nice == a.nice + b.nice,
        s.system == a.system + b.system,
        s.idle == a.idle + b.idle,
        s.iowait == a.iowait + b.iowait,
        s.irq == a.irq + b.irq,
        s.softirq == a.softirq + b.softirq,
        s.steal == a.steal + b.steal,
    ensures
        total_of(s) == total_of(a) + total_of(b),
        idle_total_of(s) == idle_total_of(a) + idle_total_of(b),
        total_of(CpuTimes { user: x, ..no_ticks() }) == x,
        total_of(CpuTimes { nice: x, ..no_ticks() }) == x,
        total_of(CpuTimes { system: x, ..no_ticks() }) == x,
        total_of(CpuTimes { idle: x, ..no_ticks() }) == x,
        total_of(CpuTimes { iowait: x, ..no_ticks() }) == x,
        total_of(CpuTimes { irq: x, ..no_ticks() }) == x,
        total_of(CpuTimes { softirq: x, ..no_ticks() }) == x,
        total_of(CpuTimes { steal: x, ..no_ticks() }) == x,
        idle_total_of(CpuTimes { idle: x, ..no_ticks() }) == x,
        idle_total_of(CpuTimes { iowait: x, ..no_ticks() }) == x,
        idle_total_of(CpuTimes { user: x, nice: x, system: x, irq: x, softirq: x, steal: x, idle: 0, iowait: 0 }) == 0,
{
}

/// Time spent in every counter but idle and iowait since `prev` is busy
/// time: when the counters grew by `d`, the busy ticks are the growth of
/// user, nice, system, irq, softirq and steal, and the elapsed ticks add the
/// growth of idle and iowait to that.
pub proof fn lemma_busy_ticks_are_the_non_idle_growth(prev: CpuTimes, d: CpuTimes, cur: CpuTimes)
    requires
        cur.user == prev.user + d.user,
        cur.nice == prev.nice + d.nice,
        cur.system == prev.system + d.system,
        cur.idle == prev.idle + d.idle,
        cur.iowait == prev.iowait + d.iowait,
        cur.irq == prev.irq + d.irq,
        cur.softirq == prev.softirq + d.softirq,
        cur.steal == prev.steal + d.steal,
    ensures
        busy_ticks_since(cur, prev) == d.user + d.nice + d.system + d.irq + d.softirq + d.steal,
        total_ticks_since(cur, prev) == busy_ticks_since(cur, prev) + d.idle + d.iowait,
{
}

} // verus!
