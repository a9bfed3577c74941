//! `/proc/<pid>/stat`: a process's command and CPU ticks, and the names of
//! `/proc` entries that are process ids.
use vstd::prelude::*;
use vstd::string::*;
use crate::scan::{chars_of, find_char, find_char_at, parse_u64, parse_u64_at, token_bounds, tokens_of};

verus! {

broadcast use vstd::string::group_string_axioms;

/// The index of the last `c` in `s`, if any.
pub open spec fn rfind_char(s: Seq<char>, c: char) -> Option<int>
    decreases s.len(),
{
    if s.len() == 0 {
        None
    } else if s.last() == c {
        Some(s.len() - 1)
    } else {
        rfind_char(s.drop_last(), c)
    }
}

proof fn lemma_rfind_char(s: Seq<char>, c: char, k: int)
    requires
        0 <= k <= s.len(),
        forall|j: int| k <= j < s.len() ==> #[trigger] s[j] != c,
    ensures
        rfind_char(s, c) == rfind_char(s.take(k), c),
    decreases s.len() - k,
{
    if k < s.len() {
        lemma_rfind_char(s.drop_last(), c, k);
        assert(s.drop_last().take(k) =~= s.take(k));
    } else {
        assert(s.take(k) =~= s);
    }
}

/// What `str::parse::<i32>` accepts: an optional `+` or `-`, then one or
/// more decimal digits, the value within the range of `i32`.
pub open spec fn parse_i32(t: Seq<char>) -> Option<i32> {
    if t.len() > 0 && t[0] == '-' {
        let d = t.drop_first();
        if d.len() > 0 && d[0] == '+' {
            None
        } else {
            match parse_u64(d) {
                Some(v) => if v <= 0x8000_0000 { Some((0 - v) as i32) } else { None },
                None => None,
            }
        }
    } else {
        match parse_u64(t) {
            Some(v) => if v <= 0x7fff_ffff { Some(v as i32) } else { None },
            None => None,
        }
    }
}

/// The process id that a `/proc` entry's name stands for, if it is a number.
pub fn pid_of_entry(name: &str) -> (r: Option<i32>)
    ensures
        r == parse_i32(name@),
{
    let chars = chars_of(name);
    let n = chars.len();
    assert(chars@.subrange(0, n as int) =~= chars@);
    if n > 0 && chars[0] == '-' {
        assert(chars@.drop_first() =~= chars@.subrange(1, n as int));
        if n > 1 && chars[1] == '+' {
            return None;
        }
        match parse_u64_at(&chars, 1, n) {
            Some(v) => if v <= 0x8000_0000 {
                Some((0 - (v as i64)) as i32)
            } else {
                None
            },
            None => None,
        }
    } else {
        match parse_u64_at(&chars, 0, n) {
            Some(v) => if v <= 0x7fff_ffff {
                Some(v as i32)
            } else {
                None
            },
            None => None,
        }
    }
}

/// A process's command and CPU ticks as its stat line gives them.
#[derive(Debug, Clone, PartialEq, Eq)]
pub struct PidStat {
    /// The command: the text between the first `(` and the last `)`.
    pub command: String,
    /// User-mode ticks (field 14), zero when unreadable.
    pub utime: u64,
    /// Kernel-mode ticks (field 15), zero when unreadable.
    pub stime: u64,
}

/// The number at `i` among `toks`, or zero when missing or unreadable.
pub open spec fn number_at_or_zero(toks: Seq<Seq<char>>, i: int) -> u64 {
    if 0 <= i < toks.len() {
        match parse_u64(toks[i]) {
            Some(v) => v,
            None => 0,
        }
    } else {
        0
    }
}

/// Whether `p` is what the stat line `s` gives: the command between the
/// first `(` and the last `)`, and the 12th and 13th tokens after the `)`
/// as the tick counts. `None` when either parenthesis is missing or the
/// last `)` comes before the first `(`.
pub open spec fn pid_stat_matches(s: Seq<char>, p: Option<PidStat>) -> bool {
    let open = find_char(s, '(');
    match rfind_char(s, ')') {
        Some(close) => if open < s.len() && open + 1 <= close {
            let toks = tokens_of(s.skip(close + 1));
            p matches Some(ps) && ps.command@ == s.subrange(open + 1, close) && ps.utime
                == number_at_or_zero(toks, 11) && ps.stime == number_at_or_zero(toks, 12)
        } else {
            p is None
        },
        None => p is None,
    }
}

fn number_at(chars: &Vec<char>, toks: &Vec<(usize, usize)>, i: usize, Ghost(t): Ghost<Seq<Seq<char>>>) -> (r: u64)
    requires
        toks@.len() == t.len(),
        forall|q: int|
            0 <= q < toks@.len() ==> {
                &&& (#[trigger] toks@[q]).0 <= toks@[q].1 <= chars@.len()
                &&& chars@.subrange(toks@[q].0 as int, toks@[q].1 as int) == t[q]
            },
    ensures
        r == number_at_or_zero(t, i as int),
{
    if i < toks.len() {
        let (a, b) = toks[i];
        match parse_u64_at(chars, a, b) {
            Some(v) => v,
            None => 0,
        }
    } else {
        0
    }
}

/// Reads a process's command and ticks from its stat line.
pub fn parse_pid_stat(stat: &str) -> (r: Option<PidStat>)
    ensures
        pid_stat_matches(stat@, r),
{
    let chars = chars_of(stat);
    let n = chars.len();
    assert(chars@.subrange(0, n as int) =~= chars@);
    let open = find_char_at(&chars, 0, n, '(');
    let mut close = n;
    while close > 0 && chars[close - 1] != ')'
        invariant
            close <= n == chars@.len(),
            forall|j: int| close <= j < n ==> #[trigger] chars@[j] != ')',
        decreases close,
    {
        close = close - 1;
    }
    proof {
        lemma_rfind_char(chars@, ')', close as int);
        if close > 0 {
            assert(chars@.take(close as int).last() == ')');
        } else {
            assert(chars@.take(0) =~= Seq::<char>::empty());
        }
    }
    if close == 0 {
        return None;
    }
    let close = close - 1;
    if open == n || open + 1 > close {
        return None;
    }
    assert(chars@.skip(close + 1) =~= chars@.subrange(close + 1, n as int));
    let toks = token_bounds(&chars, close + 1, n);
    let ghost t = tokens_of(chars@.subrange(close + 1, n as int));
    let utime = number_at(&chars, &toks, 11, Ghost(t));
    let stime = number_at(&chars, &toks, 12, Ghost(t));
    let command = String::from_str(stat.substring_char(open + 1, close));
    Some(PidStat { command, utime, stime })
}

impl PidStat {
    /// User and kernel ticks together. The sum must fit in 64 bits.
    pub fn ticks(&self) -> (r: u64)
        requires
            self.utime + self.stime <= u64::MAX,
        ensures
            r == self.utime + self.stime,
    {
        self.utime + self.stime
    }
}

} // verus!
