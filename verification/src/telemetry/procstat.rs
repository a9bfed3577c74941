//! `/proc/stat`, `/proc/loadavg` and the sched_ext state file.
use vstd::prelude::*;
use vstd::string::*;
use crate::scan::{chars_of, find_char, find_char_at, line_bounds, lines_of, parse_u64, parse_u64_at, parsed_u64s, token_bounds, tokens_of, trim, trim_bounds, u64_fields};
use crate::telemetry::cpu::{cpu_times_from, CpuTimes};
use crate::text::owned;
use crate::json::{json_str_member, str_member};

verus! {

broadcast use vstd::string::group_string_axioms;

/// `s` without the prefix `p`, when it starts with it.
pub open spec fn strip_prefix(s: Seq<char>, p: Seq<char>) -> Option<Seq<char>> {
    if p.len() <= s.len() && s.take(p.len() as int) == p {
        Some(s.skip(p.len() as int))
    } else {
        None
    }
}

/// `Some(v)` as `v`, `None` as zero.
pub open spec fn or_zero(v: Option<u64>) -> u64 {
    match v {
        Some(x) => x,
        None => 0,
    }
}

/// The first token of `s` read as a number, or zero.
pub open spec fn first_number_or_zero(s: Seq<char>) -> u64 {
    let toks = tokens_of(s);
    if toks.len() == 0 { 0 } else { or_zero(parse_u64(toks[0])) }
}

pub open spec fn cpu_prefix() -> Seq<char> {
    seq!['c', 'p', 'u', ' ']
}

pub open spec fn ctxt_prefix() -> Seq<char> {
    seq!['c', 't', 'x', 't', ' ']
}

pub open spec fn intr_prefix() -> Seq<char> {
    seq!['i', 'n', 't', 'r', ' ']
}

pub open spec fn procs_running_prefix() -> Seq<char> {
    seq!['p', 'r', 'o', 'c', 's', '_', 'r', 'u', 'n', 'n', 'i', 'n', 'g', ' ']
}

/// The figures that the collector reads from `/proc/stat`.
#[derive(Debug, Clone, Copy, PartialEq, Eq, Structural)]
pub struct ProcStat {
    /// The aggregate `cpu` line's counters, if there is one.
    pub cpu: Option<CpuTimes>,
    /// The `ctxt` line: context switches since boot.
    pub context_switches: u64,
    /// The first number of the `intr` line: interrupts since boot.
    pub interrupts: u64,
    /// The `procs_running` line: runnable tasks.
    pub runnable_tasks: u64,
}

/// What one line of `/proc/stat` changes: a `cpu ` line sets the counters
/// from its numbers, `ctxt ` and `procs_running ` lines their trimmed
/// number, an `intr ` line its first number (each unreadable number as
/// zero); other lines change nothing.
pub open spec fn proc_stat_step(st: ProcStat, line: Seq<char>) -> ProcStat {
    match strip_prefix(line, cpu_prefix()) {
        Some(rest) => ProcStat { cpu: Some(cpu_times_from(parsed_u64s(tokens_of(rest)))), ..st },
        None => match strip_prefix(line, ctxt_prefix()) {
            Some(rest) => ProcStat { context_switches: or_zero(parse_u64(trim(rest))), ..st },
            None => match strip_prefix(line, intr_prefix()) {
                Some(rest) => ProcStat { interrupts: first_number_or_zero(rest), ..st },
                None => match strip_prefix(line, procs_running_prefix()) {
                    Some(rest) => ProcStat { runnable_tasks: or_zero(parse_u64(trim(rest))), ..st },
                    None => st,
                },
            },
        },
    }
}

/// The figures of the given lines, read in order from an empty start.
pub open spec fn proc_stat_of(lines: Seq<Seq<char>>) -> ProcStat
    decreases lines.len(),
{
    if lines.len() == 0 {
        ProcStat { cpu: None, context_switches: 0, interrupts: 0, runnable_tasks: 0 }
    } else {
        proc_stat_step(proc_stat_of(lines.drop_last()), lines.last())
    }
}

fn starts_with_chars(chars: &Vec<char>, a: usize, b: usize, p: &[char]) -> (r: bool)
    requires
        a <= b <= chars.len(),
    ensures
        r == (strip_prefix(chars@.subrange(a as int, b as int), p@) is Some),
{
    let ghost s = chars@.subrange(a as int, b as int);
    if p.len() > b - a {
        return false;
    }
    let mut i: usize = 0;
    while i < p.len()
        invariant
            a <= b <= chars.len(),
            p@.len() <= b - a,
            s == chars@.subrange(a as int, b as int),
            i <= p@.len(),
            forall|j: int| 0 <= j < i ==> chars@[a + j] == p@[j],
        decreases p@.len() - i,
    {
        if chars[a + i] != p[i] {
            assert(s.take(p@.len() as int)[i as int] != p@[i as int]);
            return false;
        }
        i = i + 1;
    }
    assert(s.take(p@.len() as int) =~= p@);
    true
}

fn trimmed_number_or_zero(chars: &Vec<char>, a: usize, b: usize) -> (r: u64)
    requires
        a <= b <= chars.len(),
    ensures
        r == or_zero(parse_u64(trim(chars@.subrange(a as int, b as int)))),
{
    let (x, y) = trim_bounds(chars, a, b);
    match parse_u64_at(chars, x, y) {
        Some(v) => v,
        None => 0,
    }
}

fn first_number_at(chars: &Vec<char>, a: usize, b: usize) -> (r: u64)
    requires
        a <= b <= chars.len(),
    ensures
        r == first_number_or_zero(chars@.subrange(a as int, b as int)),
{
    let toks = token_bounds(chars, a, b);
    if toks.len() == 0 {
        0
    } else {
        let (x, y) = toks[0];
        match parse_u64_at(chars, x, y) {
            Some(v) => v,
            None => 0,
        }
    }
}

/// Parses the contents of `/proc/stat`.
pub fn parse_proc_stat(contents: &str) -> (r: ProcStat)
    ensures
        r == proc_stat_of(lines_of(contents@)),
{
    let chars = chars_of(contents);
    let lines = line_bounds(&chars);
    let ghost ls = lines_of(chars@);
    let cpu_p = ['c', 'p', 'u', ' '];
    let ctxt_p = ['c', 't', 'x', 't', ' '];
    let intr_p = ['i', 'n', 't', 'r', ' '];
    let procs_p = ['p', 'r', 'o', 'c', 's', '_', 'r', 'u', 'n', 'n', 'i', 'n', 'g', ' '];
    assert(cpu_p@ =~= cpu_prefix());
    assert(ctxt_p@ =~= ctxt_prefix());
    assert(intr_p@ =~= intr_prefix());
    assert(procs_p@ =~= procs_running_prefix());
    let mut st = ProcStat { cpu: None, context_switches: 0, interrupts: 0, runnable_tasks: 0 };
    let mut k: usize = 0;
    while k < lines.len()
        invariant
            ls == lines_of(chars@),
            cpu_p@ == cpu_prefix(),
            ctxt_p@ == ctxt_prefix(),
            intr_p@ == intr_prefix(),
            procs_p@ == procs_running_prefix(),
            k <= lines@.len(),
            lines@.len() == ls.len(),
            forall|q: int|
                0 <= q < lines@.len() ==> {
                    &&& (#[trigger] lines@[q]).0 <= lines@[q].1 <= chars@.len()
                    &&& chars@.subrange(lines@[q].0 as int, lines@[q].1 as int) == ls[q]
                },
            st == proc_stat_of(ls.take(k as int)),
        decreases lines@.len() - k,
    {
        let (a, b) = lines[k];
        let ghost line = chars@.subrange(a as int, b as int);
        assert(ls.take(k + 1).drop_last() =~= ls.take(k as int));
        assert(ls.take(k + 1).last() == line);
        if starts_with_chars(&chars, a, b, &cpu_p) {
            assert(line.skip(4) =~= chars@.subrange(a + 4, b as int));
            let fields = u64_fields(&chars, a + 4, b);
            st = ProcStat { cpu: Some(CpuTimes::from_fields(fields.as_slice())), ..st };
        } else if starts_with_chars(&chars, a, b, &ctxt_p) {
            assert(line.skip(5) =~= chars@.subrange(a + 5, b as int));
            st = ProcStat { context_switches: trimmed_number_or_zero(&chars, a + 5, b), ..st };
        } else if starts_with_chars(&chars, a, b, &intr_p) {
            assert(line.skip(5) =~= chars@.subrange(a + 5, b as int));
            st = ProcStat { interrupts: first_number_at(&chars, a + 5, b), ..st };
        } else if starts_with_chars(&chars, a, b, &procs_p) {
            assert(line.skip(14) =~= chars@.subrange(a + 14, b as int));
            st = ProcStat { runnable_tasks: trimmed_number_or_zero(&chars, a + 14, b), ..st };
        }
        k = k + 1;
    }
    assert(ls.take(k as int) =~= ls);
    st
}

/// The part of `t` between its first and second `/` (or its end), as
/// `split('/').nth(1)` gives it; `None` when `t` has no `/`.
pub open spec fn second_slash_piece(t: Seq<char>) -> Option<Seq<char>> {
    let i = find_char(t, '/');
    if i == t.len() {
        None
    } else {
        let rest = t.skip(i + 1);
        Some(rest.take(find_char(rest, '/')))
    }
}

/// The number of tasks in `/proc/loadavg`: the part after the `/` of its
/// fourth field, read as a number; zero when it cannot be read.
pub open spec fn loadavg_total_tasks_of(s: Seq<char>) -> u64 {
    let toks = tokens_of(s);
    if toks.len() < 4 {
        0
    } else {
        match second_slash_piece(toks[3]) {
            Some(p) => or_zero(parse_u64(p)),
            None => 0,
        }
    }
}

/// Reads the total number of tasks from the contents of `/proc/loadavg`.
pub fn loadavg_total_tasks(contents: &str) -> (r: u64)
    ensures
        r == loadavg_total_tasks_of(contents@),
{
    let chars = chars_of(contents);
    let n = chars.len();
    assert(chars@.subrange(0, n as int) =~= chars@);
    let toks = token_bounds(&chars, 0, n);
    if toks.len() < 4 {
        return 0;
    }
    let (a, b) = toks[3];
    let ghost t = chars@.subrange(a as int, b as int);
    let i = find_char_at(&chars, a, b, '/');
    if i == b {
        return 0;
    }
    let j = find_char_at(&chars, i + 1, b, '/');
    assert(t.skip(i - a + 1) =~= chars@.subrange(i + 1, b as int));
    assert(t.skip(i - a + 1).take(j - (i + 1)) =~= chars@.subrange(i + 1, j as int));
    match parse_u64_at(&chars, i + 1, j) {
        Some(v) => v,
        None => 0,
    }
}

/// What the collector reports as the sched_ext state: the trimmed contents
/// of the state file, or `unavailable` when it could not be read.
pub open spec fn sched_ext_state_text_of(contents: Option<Seq<char>>) -> Seq<char> {
    match contents {
        Some(c) => trim(c),
        None => seq!['u', 'n', 'a', 'v', 'a', 'i', 'l', 'a', 'b', 'l', 'e'],
    }
}

/// The trimmed contents of `s`.
pub fn trimmed(s: &str) -> (r: String)
    ensures
        r@ == trim(s@),
{
    let chars = chars_of(s);
    let n = chars.len();
    assert(chars@.subrange(0, n as int) =~= chars@);
    let (a, b) = trim_bounds(&chars, 0, n);
    String::from_str(s.substring_char(a, b))
}

/// The sched_ext state from the state file's contents, `None` when the file
/// could not be read.
pub fn sched_ext_state_text(contents: Option<&str>) -> (r: String)
    ensures
        r@ == sched_ext_state_text_of(match contents {
            Some(c) => Some(c@),
            None => None,
        }),
{
    match contents {
        Some(c) => trimmed(c),
        None => {
            proof {
                reveal_strlit("unavailable");
                assert("unavailable"@ =~= seq!['u', 'n', 'a', 'v', 'a', 'i', 'l', 'a', 'b', 'l', 'e']);
            }
            owned("unavailable")
        },
    }
}

/// The scheduler profile that the daemon's state file records: its
/// `profile` member, when the file could be read and holds one.
pub fn scheduler_profile_from(state_contents: Option<&str>) -> (r: Option<String>)
    ensures
        match state_contents {
            Some(c) => {
                &&& r is Some == json_str_member(c@, "profile"@) is Some
                &&& r matches Some(p) ==> json_str_member(c@, "profile"@) == Some(p@)
            },
            None => r is None,
        },
{
    match state_contents {
        Some(c) => str_member(c, "profile"),
        None => None,
    }
}

} // verus!
