//! `/proc/meminfo`: `Key:   value kB` lines.
use vstd::prelude::*;
use vstd::string::*;
use crate::scan::{chars_of, find_char, find_char_at, line_bounds, lines_of, parse_u64, parse_u64_at, token_bounds, tokens_of};
use crate::text::str_equals;

verus! {

broadcast use vstd::string::group_string_axioms;

/// The entry of one meminfo line: the text before the first `:` and the
/// first token after it read as a number. `None` when the line has no `:`,
/// nothing after it, or a first token that is not a number.
pub open spec fn meminfo_entry(line: Seq<char>) -> Option<(Seq<char>, u64)> {
    let i = find_char(line, ':');
    if i == line.len() {
        None
    } else {
        let toks = tokens_of(line.skip(i + 1));
        if toks.len() == 0 {
            None
        } else {
            match parse_u64(toks[0]) {
                Some(v) => Some((line.take(i), v)),
                None => None,
            }
        }
    }
}

/// The entries of the given lines, a later line overriding an earlier one
/// with the same key.
pub open spec fn meminfo_map(lines: Seq<Seq<char>>) -> Map<Seq<char>, u64>
    decreases lines.len(),
{
    if lines.len() == 0 {
        Map::empty()
    } else {
        let m = meminfo_map(lines.drop_last());
        match meminfo_entry(lines.last()) {
            Some((k, v)) => m.insert(k, v),
            None => m,
        }
    }
}

/// The map that a list of entries stands for, a later entry overriding an
/// earlier one with the same key.
pub open spec fn entries_map(e: Seq<(String, u64)>) -> Map<Seq<char>, u64>
    decreases e.len(),
{
    if e.len() == 0 {
        Map::empty()
    } else {
        entries_map(e.drop_last()).insert(e.last().0@, e.last().1)
    }
}

/// The parsed contents of `/proc/meminfo`, in kibibytes.
pub struct MemInfo {
    entries: Vec<(String, u64)>,
}

impl View for MemInfo {
    type V = Map<Seq<char>, u64>;

    closed spec fn view(&self) -> Map<Seq<char>, u64> {
        entries_map(self.entries@)
    }
}

proof fn lemma_entries_suffix(e: Seq<(String, u64)>, j: int, k: Seq<char>)
    requires
        0 <= j <= e.len(),
        forall|i: int| j <= i < e.len() ==> (#[trigger] e[i]).0@ != k,
    ensures
        entries_map(e).contains_key(k) == entries_map(e.take(j)).contains_key(k),
        entries_map(e).contains_key(k) ==> entries_map(e)[k] == entries_map(e.take(j))[k],
    decreases e.len() - j,
{
    if j < e.len() {
        lemma_entries_suffix(e.drop_last(), j, k);
        assert(e.drop_last().take(j) =~= e.take(j));
    } else {
        assert(e.take(j) =~= e);
    }
}

/// The value of the meminfo line for `key`, in kibibytes, or zero when there
/// is none, converted to bytes.
pub open spec fn kib_as_bytes(m: Map<Seq<char>, u64>, key: Seq<char>) -> int {
    (if m.contains_key(key) { m[key] as int } else { 0 }) * 1024
}

impl MemInfo {
    /// The value recorded for `key`, in kibibytes.
    pub fn get(&self, key: &str) -> (r: Option<u64>)
        ensures
            r == (if self@.contains_key(key@) {
                Some(self@[key@])
            } else {
                None
            }),
    {
        let mut j = self.entries.len();
        while j > 0
            invariant
                j <= self.entries@.len(),
                forall|i: int| j <= i < self.entries@.len() ==> (#[trigger] self.entries@[i]).0@ != key@,
            decreases j,
        {
            let ghost e = self.entries@;
            if str_equals(self.entries[j - 1].0.as_str(), key) {
                proof {
                    lemma_entries_suffix(e, j as int, key@);
                    assert(e.take(j as int).drop_last() =~= e.take(j - 1));
                }
                return Some(self.entries[j - 1].1);
            }
            j = j - 1;
        }
        proof {
            lemma_entries_suffix(self.entries@, 0, key@);
        }
        None
    }

    /// The value recorded for `key` converted from kibibytes to bytes, or
    /// zero when there is none.
    pub fn bytes(&self, key: &str) -> (r: u64)
        requires
            kib_as_bytes(self@, key@) <= u64::MAX,
        ensures
            r == kib_as_bytes(self@, key@),
    {
        match self.get(key) {
            Some(v) => v * 1024,
            None => 0,
        }
    }
}

/// Parses the contents of `/proc/meminfo`.
pub fn parse_meminfo(contents: &str) -> (r: MemInfo)
    ensures
        r@ == meminfo_map(lines_of(contents@)),
{
    let chars = chars_of(contents);
    let lines = line_bounds(&chars);
    let ghost ls = lines_of(chars@);
    let mut entries: Vec<(String, u64)> = Vec::new();
    let mut k: usize = 0;
    while k < lines.len()
        invariant
            chars@ == contents@,
            ls == lines_of(chars@),
            k <= lines@.len(),
            lines@.len() == ls.len(),
            forall|q: int|
                0 <= q < lines@.len() ==> {
                    &&& (#[trigger] lines@[q]).0 <= lines@[q].1 <= chars@.len()
                    &&& chars@.subrange(lines@[q].0 as int, lines@[q].1 as int) == ls[q]
                },
            entries_map(entries@) == meminfo_map(ls.take(k as int)),
        decreases lines@.len() - k,
    {
        let (a, b) = lines[k];
        let ghost line = chars@.subrange(a as int, b as int);
        assert(ls.take(k + 1).drop_last() =~= ls.take(k as int));
        assert(ls.take(k + 1).last() == line);
        let colon = find_char_at(&chars, a, b, ':');
        if colon < b {
            assert(line.skip(colon - a + 1) =~= chars@.subrange(colon + 1, b as int));
            assert(line.take(colon - a) =~= chars@.subrange(a as int, colon as int));
            let toks = token_bounds(&chars, colon + 1, b);
            if toks.len() > 0 {
                let (ta, tb) = toks[0];
                match parse_u64_at(&chars, ta, tb) {
                    Some(v) => {
                        let key = String::from_str(contents.substring_char(a, colon));
                        let ghost before = entries@;
                        entries.push((key, v));
                        assert(entries@.drop_last() =~= before);
                    },
                    None => {},
                }
            }
        }
        k = k + 1;
    }
    assert(ls.take(k as int) =~= ls);
    MemInfo { entries }
}

/// Memory figures derived from meminfo, in bytes.
#[derive(Debug, Clone, Copy, PartialEq, Eq, Structural)]
pub struct MemoryUsage {
    pub memory_used_bytes: u64,
    pub memory_total_bytes: u64,
    pub swap_used_bytes: u64,
    pub swap_total_bytes: u64,
}

/// `a - b`, or zero when `b` is larger.
pub open spec fn sat_diff(a: int, b: int) -> int {
    if a >= b { a - b } else { 0 }
}

/// Whether every figure that [`memory_usage`] reads fits in 64 bits once
/// converted to bytes.
pub open spec fn memory_figures_fit(m: Map<Seq<char>, u64>) -> bool {
    &&& kib_as_bytes(m, seq!['M', 'e', 'm', 'T', 'o', 't', 'a', 'l']) <= u64::MAX
    &&& kib_as_bytes(m, seq!['M', 'e', 'm', 'A', 'v', 'a', 'i', 'l', 'a', 'b', 'l', 'e']) <= u64::MAX
    &&& kib_as_bytes(m, seq!['S', 'w', 'a', 'p', 'T', 'o', 't', 'a', 'l']) <= u64::MAX
    &&& kib_as_bytes(m, seq!['S', 'w', 'a', 'p', 'F', 'r', 'e', 'e']) <= u64::MAX
}

/// Total and used memory and swap: used memory is `MemTotal` less
/// `MemAvailable`, used swap is `SwapTotal` less `SwapFree` (each zero when
/// the subtraction would go below zero); a missing line counts as zero.
pub fn memory_usage(info: &MemInfo) -> (r: MemoryUsage)
    requires
        memory_figures_fit(info@),
    ensures
        r.memory_total_bytes == kib_as_bytes(info@, seq!['M', 'e', 'm', 'T', 'o', 't', 'a', 'l']),
        r.memory_used_bytes == sat_diff(
            kib_as_bytes(info@, seq!['M', 'e', 'm', 'T', 'o', 't', 'a', 'l']),
            kib_as_bytes(info@, seq!['M', 'e', 'm', 'A', 'v', 'a', 'i', 'l', 'a', 'b', 'l', 'e']),
        ),
        r.swap_total_bytes == kib_as_bytes(info@, seq!['S', 'w', 'a', 'p', 'T', 'o', 't', 'a', 'l']),
        r.swap_used_bytes == sat_diff(
            kib_as_bytes(info@, seq!['S', 'w', 'a', 'p', 'T', 'o', 't', 'a', 'l']),
            kib_as_bytes(info@, seq!['S', 'w', 'a', 'p', 'F', 'r', 'e', 'e']),
        ),
{
    proof {
        reveal_strlit("MemTotal");
        reveal_strlit("MemAvailable");
        reveal_strlit("SwapTotal");
        reveal_strlit("SwapFree");
        assert("MemTotal"@ =~= seq!['M', 'e', 'm', 'T', 'o', 't', 'a', 'l']);
        assert("MemAvailable"@ =~= seq!['M', 'e', 'm', 'A', 'v', 'a', 'i', 'l', 'a', 'b', 'l', 'e']);
        assert("SwapTotal"@ =~= seq!['S', 'w', 'a', 'p', 'T', 'o', 't', 'a', 'l']);
        assert("SwapFree"@ =~= seq!['S', 'w', 'a', 'p', 'F', 'r', 'e', 'e']);
    }
    let memory_total_bytes = info.bytes("MemTotal");
    let memory_used_bytes = memory_total_bytes.saturating_sub(info.bytes("MemAvailable"));
    let swap_total_bytes = info.bytes("SwapTotal");
    let swap_used_bytes = swap_total_bytes.saturating_sub(info.bytes("SwapFree"));
    MemoryUsage { memory_used_bytes, memory_total_bytes, swap_used_bytes, swap_total_bytes }
}

} // verus!
