//! Summary of a replay of the policy over recorded telemetry: how often each
//! profile was recommended, the changes between consecutive
//! recommendations, and how often the stabilisation held a profile.
use vstd::prelude::*;
use crate::ipc::profile::{profile_name, Profile};
use crate::scan::{contains, contains_seq};
use crate::text::join2;

verus! {

/// The profile at `i` in alphabetical order of the names: background,
/// balanced, interactive, performance.
pub open spec fn alpha(i: int) -> Profile {
    if i == 0 {
        Profile::Background
    } else if i == 1 {
        Profile::Balanced
    } else if i == 2 {
        Profile::Interactive
    } else {
        Profile::Performance
    }
}

/// The position of a profile in alphabetical order of the names.
pub open spec fn rank(p: Profile) -> int {
    match p {
        Profile::Background => 0,
        Profile::Balanced => 1,
        Profile::Interactive => 2,
        Profile::Performance => 3,
    }
}

fn rank_of(p: Profile) -> (r: usize)
    ensures
        r == rank(p),
        alpha(r as int) == p,
{
    match p {
        Profile::Background => 0,
        Profile::Balanced => 1,
        Profile::Interactive => 2,
        Profile::Performance => 3,
    }
}

fn alpha_of(i: usize) -> (r: Profile)
    requires
        i < 4,
    ensures
        r == alpha(i as int),
{
    if i == 0 {
        Profile::Background
    } else if i == 1 {
        Profile::Balanced
    } else if i == 2 {
        Profile::Interactive
    } else {
        Profile::Performance
    }
}

/// What the report records.
pub struct ReportView {
    pub samples: nat,
    /// Recommendations per profile, in alphabetical order of the names.
    pub counts: Seq<nat>,
    /// Changes from the profile at `rank(from)` to the one at `rank(to)`,
    /// at `4 * rank(from) + rank(to)`.
    pub transitions: Seq<nat>,
    /// Recommendations held until enough consecutive samples agreed.
    pub dwell_holds: nat,
    /// Recommendations held during a cooldown.
    pub cooldown_holds: nat,
    pub first: Option<Profile>,
    pub last: Option<Profile>,
}

/// The empty report.
pub open spec fn empty_report() -> ReportView {
    ReportView {
        samples: 0,
        counts: seq![0nat, 0nat, 0nat, 0nat],
        transitions: Seq::new(16, |i: int| 0nat),
        dwell_holds: 0,
        cooldown_holds: 0,
        first: None,
        last: None,
    }
}

/// The report after one more recommendation with its reason.
pub open spec fn report_step(v: ReportView, p: Profile, reason: Seq<char>) -> ReportView {
    ReportView {
        samples: v.samples + 1,
        counts: v.counts.update(rank(p), v.counts[rank(p)] + 1),
        transitions: match v.last {
            Some(q) => if q != p {
                let t = 4 * rank(q) + rank(p);
                v.transitions.update(t, v.transitions[t] + 1)
            } else {
                v.transitions
            },
            None => v.transitions,
        },
        dwell_holds: v.dwell_holds + if contains_seq(reason, "consecutive samples"@) { 1nat } else { 0nat },
        cooldown_holds: v.cooldown_holds + if contains_seq(reason, "cooldown"@) { 1nat } else { 0nat },
        first: match v.first {
            Some(f) => Some(f),
            None => Some(p),
        },
        last: Some(p),
    }
}

/// The report of a sequence of recommendations with their reasons.
pub open spec fn report_of(records: Seq<(Profile, Seq<char>)>) -> ReportView
    decreases records.len(),
{
    if records.len() == 0 {
        empty_report()
    } else {
        report_step(report_of(records.drop_last()), records.last().0, records.last().1)
    }
}

/// The recommendation counts to print: for each profile recommended at
/// least once, in alphabetical order, its name and count.
pub open spec fn count_entries(v: ReportView, k: int) -> Seq<(Seq<char>, nat)>
    decreases k,
{
    if k <= 0 {
        seq![]
    } else {
        let rest = count_entries(v, k - 1);
        if v.counts[k - 1] > 0 {
            rest.push((profile_name(alpha(k - 1)), v.counts[k - 1]))
        } else {
            rest
        }
    }
}

/// The transitions to print: for each change that occurred, ordered by the
/// names of its profiles, `from -> to` and its count.
pub open spec fn transition_entries(v: ReportView, k: int) -> Seq<(Seq<char>, nat)>
    decreases k,
{
    if k <= 0 {
        seq![]
    } else {
        let rest = transition_entries(v, k - 1);
        let t = k - 1;
        if v.transitions[t] > 0 {
            rest.push((profile_name(alpha(t / 4)) + " -> "@ + profile_name(alpha(t % 4)), v.transitions[t]))
        } else {
            rest
        }
    }
}

/// Whether the printed entries are the given ones.
pub open spec fn entries_are(r: Seq<(String, usize)>, e: Seq<(Seq<char>, nat)>) -> bool {
    &&& r.len() == e.len()
    &&& forall|i: int| 0 <= i < r.len() ==> (#[trigger] r[i]).0@ == e[i].0 && r[i].1 == e[i].1
}

/// A summary of replayed policy decisions.
pub struct ReplayReport {
    samples: usize,
    counts: Vec<usize>,
    transitions: Vec<usize>,
    dwell_holds: usize,
    cooldown_holds: usize,
    first: Option<Profile>,
    last: Option<Profile>,
}

impl View for ReplayReport {
    type V = ReportView;

    closed spec fn view(&self) -> ReportView {
        ReportView {
            samples: self.samples as nat,
            counts: self.counts@.map_values(|c: usize| c as nat),
            transitions: self.transitions@.map_values(|c: usize| c as nat),
            dwell_holds: self.dwell_holds as nat,
            cooldown_holds: self.cooldown_holds as nat,
            first: self.first,
            last: self.last,
        }
    }
}

impl ReplayReport {
    /// The report's invariant: four counts and sixteen transitions, none
    /// above the number of samples.
    pub closed spec fn wf(&self) -> bool {
        &&& self.counts@.len() == 4
        &&& self.transitions@.len() == 16
        &&& forall|i: int| 0 <= i < 4 ==> #[trigger] self.counts@[i] <= self.samples
        &&& forall|i: int| 0 <= i < 16 ==> #[trigger] self.transitions@[i] <= self.samples
        &&& self.dwell_holds <= self.samples
        &&& self.cooldown_holds <= self.samples
    }

    /// An empty report.
    pub fn new() -> (r: ReplayReport)
        ensures
            r.wf(),
            r@ == empty_report(),
    {
        let mut counts: Vec<usize> = Vec::new();
        let mut i: usize = 0;
        while i < 4
            invariant
                i <= 4,
                counts@.len() == i,
                forall|j: int| 0 <= j < i ==> counts@[j] == 0,
            decreases 4 - i,
        {
            counts.push(0);
            i = i + 1;
        }
        let mut transitions: Vec<usize> = Vec::new();
        let mut i: usize = 0;
        while i < 16
            invariant
                i <= 16,
                transitions@.len() == i,
                forall|j: int| 0 <= j < i ==> transitions@[j] == 0,
            decreases 16 - i,
        {
            transitions.push(0);
            i = i + 1;
        }
        let r = ReplayReport {
            samples: 0,
            counts,
            transitions,
            dwell_holds: 0,
            cooldown_holds: 0,
            first: None,
            last: None,
        };
        assert(r@.counts =~= empty_report().counts);
        assert(r@.transitions =~= empty_report().transitions);
        r
    }

    /// Records one more recommendation with its reason.
    pub fn add(&mut self, recommended: Profile, reason: &str)
        requires
            old(self).wf(),
            old(self)@.samples < usize::MAX,
        ensures
            final(self).wf(),
            final(self)@ == report_step(old(self)@, recommended, reason@),
    {
        let ghost before = self@;
        let r = rank_of(recommended);
        let c = self.counts[r];
        self.counts.set(r, c + 1);
        match self.last {
            Some(q) => {
                if q != recommended {
                    let t = 4 * rank_of(q) + r;
                    let x = self.transitions[t];
                    self.transitions.set(t, x + 1);
                }
            },
            None => {},
        }
        if contains(reason, "consecutive samples") {
            self.dwell_holds = self.dwell_holds + 1;
        }
        if contains(reason, "cooldown") {
            self.cooldown_holds = self.cooldown_holds + 1;
        }
        if self.first.is_none() {
            self.first = Some(recommended);
        }
        self.last = Some(recommended);
        self.samples = self.samples + 1;
        proof {
            let after = report_step(before, recommended, reason@);
            assert(self@.counts =~= after.counts);
            assert(self@.transitions =~= after.transitions);
        }
    }

    /// The number of recommendations.
    pub fn samples(&self) -> (r: usize)
        ensures
            r == self@.samples,
    {
        self.samples
    }

    /// The first recommendation.
    pub fn first(&self) -> (r: Option<Profile>)
        ensures
            r == self@.first,
    {
        self.first
    }

    /// The last recommendation.
    pub fn last(&self) -> (r: Option<Profile>)
        ensures
            r == self@.last,
    {
        self.last
    }

    /// Recommendations held until enough consecutive samples agreed.
    pub fn dwell_holds(&self) -> (r: usize)
        ensures
            r == self@.dwell_holds,
    {
        self.dwell_holds
    }

    /// Recommendations held during a cooldown.
    pub fn cooldown_holds(&self) -> (r: usize)
        ensures
            r == self@.cooldown_holds,
    {
        self.cooldown_holds
    }

    /// For each profile recommended at least once, in alphabetical order of
    /// the names, its name and count.
    pub fn recommendation_counts(&self) -> (r: Vec<(String, usize)>)
        requires
            self.wf(),
        ensures
            entries_are(r@, count_entries(self@, 4)),
    {
        let mut out: Vec<(String, usize)> = Vec::new();
        let mut i: usize = 0;
        while i < 4
            invariant
                i <= 4,
                self.wf(),
                entries_are(out@, count_entries(self@, i as int)),
            decreases 4 - i,
        {
            let c = self.counts[i];
            if c > 0 {
                let name = alpha_of(i).to_string();
                out.push((name, c));
            }
            i = i + 1;
        }
        out
    }

    /// For each change between consecutive recommendations that occurred,
    /// ordered by the names of its profiles, `from -> to` and its count.
    pub fn transitions(&self) -> (r: Vec<(String, usize)>)
        requires
            self.wf(),
        ensures
            entries_are(r@, transition_entries(self@, 16)),
    {
        let mut out: Vec<(String, usize)> = Vec::new();
        let mut t: usize = 0;
        while t < 16
            invariant
                t <= 16,
                self.wf(),
                entries_are(out@, transition_entries(self@, t as int)),
            decreases 16 - t,
        {
            let c = self.transitions[t];
            if c > 0 {
                let from = alpha_of(t / 4).to_string();
                let to = alpha_of(t % 4).to_string();
                let mut text = join2(from.as_str(), " -> ");
                text.append(to.as_str());
                out.push((text, c));
            }
            t = t + 1;
        }
        out
    }
}

/// Summarises the recommendations (with their reasons) of a replay, in order.
pub fn analyze(records: &[(Profile, String)]) -> (r: ReplayReport)
    ensures
        r.wf(),
        r@ == report_of(records@.map_values(|x: (Profile, String)| (x.0, x.1@))),
{
    let ghost recs = records@.map_values(|x: (Profile, String)| (x.0, x.1@));
    let mut report = ReplayReport::new();
    let mut k: usize = 0;
    while k < records.len()
        invariant
            k <= records@.len(),
            recs == records@.map_values(|x: (Profile, String)| (x.0, x.1@)),
            report.wf(),
            report@ == report_of(recs.take(k as int)),
            report@.samples == k,
        decreases records@.len() - k,
    {
        assert(recs.take(k + 1).drop_last() =~= recs.take(k as int));
        report.add(records[k].0, records[k].1.as_str());
        k = k + 1;
    }
    assert(recs.take(k as int) =~= recs);
    report
}

/// Every recommendation is counted for exactly one profile, a profile never
/// changes to itself, and there is at most one change fewer than there are
/// recommendations.
pub proof fn lemma_report_totals(records: Seq<(Profile, Seq<char>)>)
    ensures
        ({
            let v = report_of(records);
            &&& v.counts.len() == 4
            &&& v.transitions.len() == 16
            &&& v.counts[0] + v.counts[1] + v.counts[2] + v.counts[3] == v.samples
            &&& v.samples == records.len()
            &&& forall|i: int| 0 <= i < 4 ==> #[trigger] v.transitions[5 * i] == 0
            &&& v.samples == 0 ==> transition_total(v.transitions, 16) == 0
            &&& v.samples > 0 ==> transition_total(v.transitions, 16) < v.samples
            &&& (v.samples == 0 <==> v.last is None)
        }),
    decreases records.len(),
{
    if records.len() > 0 {
        lemma_report_totals(records.drop_last());
        let v = report_of(records.drop_last());
        let p = records.last().0;
        let w = report_of(records);
        assert forall|i: int| 0 <= i < 4 implies #[trigger] w.transitions[5 * i] == 0 by {
            assert(v.transitions[5 * i] == 0);
        }
        let r = rank(p);
        assert(w.counts[0] + w.counts[1] + w.counts[2] + w.counts[3] == v.counts[0] + v.counts[1]
            + v.counts[2] + v.counts[3] + 1) by {
            if r == 0 {
            } else if r == 1 {
            } else if r == 2 {
            } else {
            }
        }
        match v.last {
            Some(q) => if q != p {
                let t = 4 * rank(q) + rank(p);
                lemma_total_update(v.transitions, t, 16);
            },
            None => {},
        }
    } else {
        let v = report_of(records);
        assert(transition_total(v.transitions, 16) == 0) by {
            lemma_total_zero(v.transitions, 16);
        }
    }
}

/// The sum of the first `k` transition counts.
pub open spec fn transition_total(t: Seq<nat>, k: int) -> nat
    decreases k,
{
    if k <= 0 { 0 } else { transition_total(t, k - 1) + t[k - 1] }
}

proof fn lemma_total_update(t: Seq<nat>, i: int, k: int)
    requires
        0 <= i < t.len(),
        0 <= k <= t.len(),
    ensures
        transition_total(t.update(i, t[i] + 1), k) == transition_total(t, k) + if i < k { 1nat } else { 0nat },
    decreases k,
{
    if k > 0 {
        lemma_total_update(t, i, k - 1);
    }
}

proof fn lemma_total_zero(t: Seq<nat>, k: int)
    requires
        0 <= k <= t.len(),
        forall|j: int| 0 <= j < t.len() ==> t[j] == 0,
    ensures
        transition_total(t, k) == 0,
    decreases k,
{
    if k > 0 {
        lemma_total_zero(t, k - 1);
    }
}

} // verus!
