//! Scanning text the way the standard library's `str` methods do: lines,
//! whitespace-separated tokens, trimming and unsigned decimal numbers.
use vstd::prelude::*;
use vstd::string::*;

verus! {

broadcast use vstd::string::group_string_axioms;

/// Unicode `White_Space`, the set that `char::is_whitespace` and the
/// `str` methods `trim` and `split_whitespace` use.
pub open spec fn is_ws(c: char) -> bool {
    ||| ('\u{9}' <= c && c <= '\u{d}')
    ||| c == ' '
    ||| c == '\u{85}'
    ||| c == '\u{a0}'
    ||| c == '\u{1680}'
    ||| ('\u{2000}' <= c && c <= '\u{200a}')
    ||| c == '\u{2028}'
    ||| c == '\u{2029}'
    ||| c == '\u{202f}'
    ||| c == '\u{205f}'
    ||| c == '\u{3000}'
}

/// Executable test for [`is_ws`].
pub fn char_is_ws(c: char) -> (r: bool)
    ensures
        r == is_ws(c),
{
    ('\u{9}' <= c && c <= '\u{d}') || c == ' ' || c == '\u{85}' || c == '\u{a0}' || c == '\u{1680}'
        || ('\u{2000}' <= c && c <= '\u{200a}') || c == '\u{2028}' || c == '\u{2029}' || c
        == '\u{202f}' || c == '\u{205f}' || c == '\u{3000}'
}

/// The characters of a string slice, in order.
pub fn chars_of(s: &str) -> (r: Vec<char>)
    ensures
        r@ == s@,
{
    let mut out: Vec<char> = Vec::new();
    for c in it: s.chars()
        invariant
            it.seq() == s@,
            out@ == it.seq().take(it.index() as int),
    {
        out.push(c);
        assert(out@ =~= it.seq().take(it.index() + 1));
    }
    assert(out@ =~= s@);
    out
}

// ---------------------------------------------------------------------------
// Trimming
// ---------------------------------------------------------------------------

/// `s` without its leading whitespace.
pub open spec fn trim_start(s: Seq<char>) -> Seq<char>
    decreases s.len(),
{
    if s.len() > 0 && is_ws(s[0]) {
        trim_start(s.drop_first())
    } else {
        s
    }
}

/// `s` without its trailing whitespace.
pub open spec fn trim_end(s: Seq<char>) -> Seq<char>
    decreases s.len(),
{
    if s.len() > 0 && is_ws(s.last()) {
        trim_end(s.drop_last())
    } else {
        s
    }
}

/// `s` without leading and trailing whitespace, as `str::trim` returns it.
pub open spec fn trim(s: Seq<char>) -> Seq<char> {
    trim_end(trim_start(s))
}

proof fn lemma_trim_start_skip(s: Seq<char>, i: int)
    requires
        0 <= i <= s.len(),
        forall|j: int| 0 <= j < i ==> is_ws(#[trigger] s[j]),
    ensures
        trim_start(s) == trim_start(s.skip(i)),
    decreases i,
{
    if i > 0 {
        assert(s.drop_first() =~= s.skip(1));
        lemma_trim_start_skip(s.drop_first(), i - 1);
        assert(s.drop_first().skip(i - 1) =~= s.skip(i));
    } else {
        assert(s.skip(0) =~= s);
    }
}

proof fn lemma_trim_end_take(s: Seq<char>, k: int)
    requires
        0 <= k <= s.len(),
        forall|j: int| k <= j < s.len() ==> is_ws(#[trigger] s[j]),
    ensures
        trim_end(s) == trim_end(s.take(k)),
    decreases s.len() - k,
{
    if k < s.len() {
        assert(s.drop_last() =~= s.take(s.len() - 1));
        lemma_trim_end_take(s.drop_last(), k);
        assert(s.drop_last().take(k) =~= s.take(k));
    } else {
        assert(s.take(k) =~= s);
    }
}

/// The bounds `(a, b)` of the trimmed part of `chars[start..end]`.
pub fn trim_bounds(chars: &Vec<char>, start: usize, end: usize) -> (r: (usize, usize))
    requires
        start <= end <= chars.len(),
    ensures
        start <= r.0 <= r.1 <= end,
        chars@.subrange(r.0 as int, r.1 as int) == trim(chars@.subrange(start as int, end as int)),
{
    let ghost s = chars@.subrange(start as int, end as int);
    let mut a = start;
    while a < end && char_is_ws(chars[a])
        invariant
            start <= a <= end <= chars.len(),
            s == chars@.subrange(start as int, end as int),
            forall|j: int| start <= j < a ==> is_ws(#[trigger] chars@[j]),
        decreases end - a,
    {
        a = a + 1;
    }
    proof {
        assert forall|j: int| 0 <= j < a - start implies is_ws(#[trigger] s[j]) by {
            assert(s[j] == chars@[start + j]);
        }
        lemma_trim_start_skip(s, a - start);
        let t = s.skip(a - start);
        assert(t =~= chars@.subrange(a as int, end as int));
        if a < end {
            assert(!is_ws(t[0]));
        }
        assert(trim_start(s) == t);
    }
    let mut b = end;
    while b > a && char_is_ws(chars[b - 1])
        invariant
            start <= a <= b <= end <= chars.len(),
            forall|j: int| b <= j < end ==> is_ws(#[trigger] chars@[j]),
        decreases b - a,
    {
        b = b - 1;
    }
    proof {
        let t = chars@.subrange(a as int, end as int);
        assert forall|j: int| b - a <= j < t.len() implies is_ws(#[trigger] t[j]) by {
            assert(t[j] == chars@[a + j]);
        }
        lemma_trim_end_take(t, b - a);
        let u = t.take(b - a);
        assert(u =~= chars@.subrange(a as int, b as int));
        if b > a {
            assert(u.last() == chars@[b - 1]);
        }
        assert(trim_end(u) == u);
    }
    (a, b)
}

// ---------------------------------------------------------------------------
// Lines
// ---------------------------------------------------------------------------

/// `line` without one trailing carriage return.
pub open spec fn strip_cr(line: Seq<char>) -> Seq<char> {
    if line.len() > 0 && line.last() == '\r' {
        line.drop_last()
    } else {
        line
    }
}

/// Splitting `s` so far: the finished lines and the line still open.
pub open spec fn line_state(s: Seq<char>) -> (Seq<Seq<char>>, Seq<char>)
    decreases s.len(),
{
    if s.len() == 0 {
        (seq![], seq![])
    } else {
        let (done, open) = line_state(s.drop_last());
        if s.last() == '\n' {
            (done.push(strip_cr(open)), seq![])
        } else {
            (done, open.push(s.last()))
        }
    }
}

/// The lines of `s`, as `str::lines` yields them: split at `\n`, one `\r`
/// before each `\n` dropped, and no empty line after a final `\n`.
pub open spec fn lines_of(s: Seq<char>) -> Seq<Seq<char>> {
    let (done, open) = line_state(s);
    if open.len() == 0 {
        done
    } else {
        done.push(open)
    }
}

/// The start of the line still open after `s`, with the state of `s`.
proof fn lemma_line_state_open(s: Seq<char>, i: int)
    requires
        0 <= i <= s.len(),
        i == 0 || s[i - 1] == '\n',
        forall|j: int| i <= j < s.len() ==> s[j] != '\n',
    ensures
        line_state(s).1 == s.skip(i),
        line_state(s).0 == line_state(s.take(i)).0,
    decreases s.len() - i,
{
    if s.len() > i {
        let p = s.drop_last();
        lemma_line_state_open(p, i);
        assert(p.skip(i).push(s.last()) =~= s.skip(i));
        assert(p.take(i) =~= s.take(i));
    } else {
        assert(s.take(i) =~= s);
        assert(s.skip(i) =~= Seq::<char>::empty());
    }
}

/// The `(start, end)` bounds in `chars` of each line of `chars`.
pub fn line_bounds(chars: &Vec<char>) -> (r: Vec<(usize, usize)>)
    ensures
        r@.len() == lines_of(chars@).len(),
        forall|k: int|
            0 <= k < r@.len() ==> {
                &&& (#[trigger] r@[k]).0 <= r@[k].1 <= chars@.len()
                &&& chars@.subrange(r@[k].0 as int, r@[k].1 as int) == lines_of(chars@)[k]
            },
{
    let n = chars.len();
    let mut out: Vec<(usize, usize)> = Vec::new();
    let mut start: usize = 0;
    let mut i: usize = 0;
    while i < n
        invariant
            n == chars@.len(),
            start <= i <= n,
            start == 0 || chars@[start - 1] == '\n',
            forall|j: int| start <= j < i ==> chars@[j] != '\n',
            out@.len() == line_state(chars@.take(i as int)).0.len(),
            forall|k: int|
                0 <= k < out@.len() ==> {
                    &&& (#[trigger] out@[k]).0 <= out@[k].1 <= chars@.len()
                    &&& chars@.subrange(out@[k].0 as int, out@[k].1 as int) == line_state(
                        chars@.take(i as int),
                    ).0[k]
                },
        decreases n - i,
    {
        let ghost before = chars@.take(i as int);
        let ghost after = chars@.take(i + 1);
        assert(after.drop_last() =~= before);
        if chars[i] == '\n' {
            proof {
                lemma_line_state_open(before, start as int);
                assert(before.skip(start as int) =~= chars@.subrange(start as int, i as int));
            }
            let end = if i > start && chars[i - 1] == '\r' {
                i - 1
            } else {
                i
            };
            proof {
                let open = chars@.subrange(start as int, i as int);
                if i > start && chars@[i - 1] == '\r' {
                    assert(open.drop_last() =~= chars@.subrange(start as int, end as int));
                }
                assert(strip_cr(open) == chars@.subrange(start as int, end as int));
            }
            out.push((start, end));
            start = i + 1;
        }
        i = i + 1;
    }
    proof {
        assert(chars@.take(n as int) =~= chars@);
        lemma_line_state_open(chars@, start as int);
        assert(chars@.skip(start as int) =~= chars@.subrange(start as int, n as int));
    }
    if start < n {
        out.push((start, n));
    }
    out
}

// ---------------------------------------------------------------------------
// Whitespace-separated tokens
// ---------------------------------------------------------------------------

/// Splitting `s` into tokens so far: the finished tokens and the token
/// still open (empty between tokens).
pub open spec fn token_state(s: Seq<char>) -> (Seq<Seq<char>>, Seq<char>)
    decreases s.len(),
{
    if s.len() == 0 {
        (seq![], seq![])
    } else {
        let (done, open) = token_state(s.drop_last());
        if is_ws(s.last()) {
            if open.len() > 0 {
                (done.push(open), seq![])
            } else {
                (done, open)
            }
        } else {
            (done, open.push(s.last()))
        }
    }
}

/// The tokens of `s`, as `str::split_whitespace` yields them: the maximal
/// runs of characters that are not whitespace.
pub open spec fn tokens_of(s: Seq<char>) -> Seq<Seq<char>> {
    let (done, open) = token_state(s);
    if open.len() == 0 {
        done
    } else {
        done.push(open)
    }
}

/// The `(start, end)` bounds in `chars` of each token of `chars[start..end]`.
pub fn token_bounds(chars: &Vec<char>, start: usize, end: usize) -> (r: Vec<(usize, usize)>)
    requires
        start <= end <= chars.len(),
    ensures
        r@.len() == tokens_of(chars@.subrange(start as int, end as int)).len(),
        forall|k: int|
            0 <= k < r@.len() ==> {
                &&& start <= (#[trigger] r@[k]).0 <= r@[k].1 <= end
                &&& chars@.subrange(r@[k].0 as int, r@[k].1 as int) == tokens_of(
                    chars@.subrange(start as int, end as int),
                )[k]
            },
{
    let ghost s = chars@.subrange(start as int, end as int);
    let mut out: Vec<(usize, usize)> = Vec::new();
    let mut in_token = false;
    let mut ts: usize = start;
    let mut i: usize = start;
    while i < end
        invariant
            start <= i <= end <= chars.len(),
            s == chars@.subrange(start as int, end as int),
            start <= ts <= i,
            in_token ==> ts < i,
            token_state(s.take(i - start)).1 == (if in_token {
                chars@.subrange(ts as int, i as int)
            } else {
                Seq::<char>::empty()
            }),
            out@.len() == token_state(s.take(i - start)).0.len(),
            forall|k: int|
                0 <= k < out@.len() ==> {
                    &&& start <= (#[trigger] out@[k]).0 <= out@[k].1 <= end
                    &&& chars@.subrange(out@[k].0 as int, out@[k].1 as int) == token_state(
                        s.take(i - start),
                    ).0[k]
                },
        decreases end - i,
    {
        let ghost before = s.take(i - start);
        let ghost after = s.take(i + 1 - start);
        assert(after.drop_last() =~= before);
        assert(after.last() == chars@[i as int]);
        let c = chars[i];
        if char_is_ws(c) {
            if in_token {
                out.push((ts, i));
                in_token = false;
            }
        } else {
            if in_token {
                assert(chars@.subrange(ts as int, i as int).push(c) =~= chars@.subrange(
                    ts as int,
                    i + 1,
                ));
            } else {
                ts = i;
                assert(Seq::<char>::empty().push(c) =~= chars@.subrange(i as int, i + 1));
            }
            in_token = true;
        }
        i = i + 1;
    }
    assert(s.take(end - start) =~= s);
    if in_token {
        out.push((ts, end));
    }
    out
}

// ---------------------------------------------------------------------------
// Unsigned decimal numbers
// ---------------------------------------------------------------------------

/// Whether `c` is an ASCII decimal digit.
pub open spec fn is_digit(c: char) -> bool {
    '0' <= c && c <= '9'
}

/// The value of a decimal digit character.
pub open spec fn digit_value(c: char) -> nat {
    ((c as int) - ('0' as int)) as nat
}

/// The value of a string of decimal digits.
pub open spec fn digits_value(d: Seq<char>) -> nat
    decreases d.len(),
{
    if d.len() == 0 {
        0
    } else {
        digits_value(d.drop_last()) * 10 + digit_value(d.last())
    }
}

/// `t` without one leading `+`.
pub open spec fn unsigned_part(t: Seq<char>) -> Seq<char> {
    if t.len() > 0 && t[0] == '+' {
        t.drop_first()
    } else {
        t
    }
}

/// Whether every character of `d` is a decimal digit.
pub open spec fn all_digits(d: Seq<char>) -> bool {
    forall|i: int| 0 <= i < d.len() ==> is_digit(#[trigger] d[i])
}

/// What `u64::from_str` accepts: an optional `+`, then one or more decimal
/// digits whose value fits in 64 bits.
pub open spec fn parse_u64(t: Seq<char>) -> Option<u64> {
    let d = unsigned_part(t);
    if d.len() > 0 && all_digits(d) && digits_value(d) <= u64::MAX {
        Some(digits_value(d) as u64)
    } else {
        None
    }
}

proof fn lemma_digits_prefix(d: Seq<char>, k: int)
    requires
        0 <= k <= d.len(),
    ensures
        digits_value(d.take(k)) <= digits_value(d),
    decreases d.len(),
{
    if k < d.len() {
        lemma_digits_prefix(d.drop_last(), k);
        assert(d.drop_last().take(k) =~= d.take(k));
    } else {
        assert(d.take(k) =~= d);
    }
}

/// `u64::from_str` on `chars[start..end]`.
pub fn parse_u64_at(chars: &Vec<char>, start: usize, end: usize) -> (r: Option<u64>)
    requires
        start <= end <= chars.len(),
    ensures
        r == parse_u64(chars@.subrange(start as int, end as int)),
{
    let ghost t = chars@.subrange(start as int, end as int);
    let a = if start < end && chars[start] == '+' {
        start + 1
    } else {
        start
    };
    let ghost d = chars@.subrange(a as int, end as int);
    assert(d == unsigned_part(t));
    if a == end {
        return None;
    }
    let mut acc: u64 = 0;
    let mut i: usize = a;
    while i < end
        invariant
            start <= a <= i <= end <= chars.len(),
            a < end,
            d == chars@.subrange(a as int, end as int),
            t == chars@.subrange(start as int, end as int),
            d == unsigned_part(t),
            forall|j: int| a <= j < i ==> is_digit(#[trigger] chars@[j]),
            acc == digits_value(chars@.subrange(a as int, i as int)),
        decreases end - i,
    {
        let c = chars[i];
        if !('0' <= c && c <= '9') {
            proof {
                assert(d[i - a] == chars@[i as int]);
                assert(!is_digit(d[i - a]));
            }
            return None;
        }
        let v = (c as u32 - '0' as u32) as u64;
        let ghost pre = chars@.subrange(a as int, i + 1);
        assert(pre.drop_last() =~= chars@.subrange(a as int, i as int));
        assert(pre.last() == c);
        if acc > (u64::MAX - v) / 10 {
            proof {
                assert(acc * 10 + v > u64::MAX) by (nonlinear_arith)
                    requires
                        acc > (u64::MAX - v) / 10,
                        v <= 9,
                ;
                lemma_digits_prefix(d, i + 1 - a);
                assert(d.take(i + 1 - a) =~= pre);
            }
            return None;
        }
        proof {
            assert(acc * 10 + v <= u64::MAX) by (nonlinear_arith)
                requires
                    acc <= (u64::MAX - v) / 10,
                    v <= 9,
            ;
        }
        acc = acc * 10 + v;
        i = i + 1;
    }
    assert(chars@.subrange(a as int, i as int) =~= d);
    assert forall|j: int| 0 <= j < d.len() implies is_digit(#[trigger] d[j]) by {
        assert(d[j] == chars@[a + j]);
    }
    Some(acc)
}

/// The numbers among `tokens`, in order: those that `u64::from_str` accepts.
pub open spec fn parsed_u64s(tokens: Seq<Seq<char>>) -> Seq<u64>
    decreases tokens.len(),
{
    if tokens.len() == 0 {
        seq![]
    } else {
        let rest = parsed_u64s(tokens.drop_last());
        match parse_u64(tokens.last()) {
            Some(v) => rest.push(v),
            None => rest,
        }
    }
}

/// The numbers among the tokens of `chars[start..end]`, in order.
pub fn u64_fields(chars: &Vec<char>, start: usize, end: usize) -> (r: Vec<u64>)
    requires
        start <= end <= chars.len(),
    ensures
        r@ == parsed_u64s(tokens_of(chars@.subrange(start as int, end as int))),
{
    let bounds = token_bounds(chars, start, end);
    let ghost toks = tokens_of(chars@.subrange(start as int, end as int));
    let mut out: Vec<u64> = Vec::new();
    let mut k: usize = 0;
    while k < bounds.len()
        invariant
            k <= bounds@.len(),
            bounds@.len() == toks.len(),
            start <= end <= chars.len(),
            forall|q: int|
                0 <= q < bounds@.len() ==> {
                    &&& start <= (#[trigger] bounds@[q]).0 <= bounds@[q].1 <= end
                    &&& chars@.subrange(bounds@[q].0 as int, bounds@[q].1 as int) == toks[q]
                },
            out@ == parsed_u64s(toks.take(k as int)),
        decreases bounds@.len() - k,
    {
        let (a, b) = bounds[k];
        assert(toks.take(k + 1).drop_last() =~= toks.take(k as int));
        match parse_u64_at(chars, a, b) {
            Some(v) => out.push(v),
            None => {},
        }
        k = k + 1;
    }
    assert(toks.take(k as int) =~= toks);
    out
}

// ---------------------------------------------------------------------------
// Searching
// ---------------------------------------------------------------------------

/// The index of the first `c` in `s`, or the length of `s` when there is none.
pub open spec fn find_char(s: Seq<char>, c: char) -> int
    decreases s.len(),
{
    if s.len() == 0 {
        0
    } else if s[0] == c {
        0
    } else {
        1 + find_char(s.drop_first(), c)
    }
}

proof fn lemma_find_char(s: Seq<char>, c: char, i: int)
    requires
        0 <= i <= s.len(),
        forall|j: int| 0 <= j < i ==> #[trigger] s[j] != c,
        i == s.len() || s[i] == c,
    ensures
        find_char(s, c) == i,
    decreases i,
{
    if i > 0 {
        lemma_find_char(s.drop_first(), c, i - 1);
    }
}

/// The index of the first `c` in `chars[start..end]`, counted from `start`,
/// or `end` when there is none.
pub fn find_char_at(chars: &Vec<char>, start: usize, end: usize, c: char) -> (r: usize)
    requires
        start <= end <= chars.len(),
    ensures
        start <= r <= end,
        r - start == find_char(chars@.subrange(start as int, end as int), c),
{
    let mut i = start;
    while i < end && chars[i] != c
        invariant
            start <= i <= end <= chars.len(),
            forall|j: int| start <= j < i ==> #[trigger] chars@[j] != c,
        decreases end - i,
    {
        i = i + 1;
    }
    proof {
        let s = chars@.subrange(start as int, end as int);
        assert forall|j: int| 0 <= j < i - start implies #[trigger] s[j] != c by {
            assert(s[j] == chars@[start + j]);
        }
        lemma_find_char(s, c, i - start);
    }
    i
}

// ---------------------------------------------------------------------------
// Substrings
// ---------------------------------------------------------------------------

/// Whether `needle` occurs in `s` at index `i`.
pub open spec fn occurs_at(s: Seq<char>, needle: Seq<char>, i: int) -> bool {
    0 <= i && i + needle.len() <= s.len() && s.subrange(i, i + needle.len()) == needle
}

/// Whether `needle` occurs in `s`, as `str::contains` answers it.
pub open spec fn contains_seq(s: Seq<char>, needle: Seq<char>) -> bool {
    exists|i: int| #[trigger] occurs_at(s, needle, i)
}

fn matches_at(h: &Vec<char>, n: &Vec<char>, i: usize) -> (r: bool)
    requires
        i + n@.len() <= h@.len(),
    ensures
        r == occurs_at(h@, n@, i as int),
{
    let hl = h.len();
    let mut j: usize = 0;
    while j < n.len()
        invariant
            hl == h@.len(),
            i + n@.len() <= h@.len(),
            j <= n@.len(),
            forall|k: int| 0 <= k < j ==> h@[i + k] == n@[k],
        decreases n@.len() - j,
    {
        assert(i + j < h@.len());
        if h[i + j] != n[j] {
            assert(h@.subrange(i as int, i + n@.len())[j as int] != n@[j as int]);
            return false;
        }
        j = j + 1;
    }
    assert(h@.subrange(i as int, i + n@.len()) =~= n@);
    true
}

/// Whether `needle` occurs in `s`.
pub fn contains(s: &str, needle: &str) -> (r: bool)
    ensures
        r == contains_seq(s@, needle@),
{
    let h = chars_of(s);
    let n = chars_of(needle);
    if n.len() > h.len() {
        assert forall|i: int| !#[trigger] occurs_at(s@, needle@, i) by {}
        return false;
    }
    if n.len() == 0 {
        assert(occurs_at(s@, needle@, 0) <==> s@.subrange(0, 0) == needle@);
        assert(s@.subrange(0, 0) =~= needle@);
        return true;
    }
    let last = h.len() - n.len();
    let mut i: usize = 0;
    while i <= last
        invariant
            h@ == s@,
            n@ == needle@,
            n@.len() >= 1,
            h@.len() <= usize::MAX,
            last == h@.len() - n@.len(),
            i <= last + 1,
            forall|k: int| 0 <= k < i ==> !#[trigger] occurs_at(s@, needle@, k),
        decreases last + 1 - i,
    {
        if matches_at(&h, &n, i) {
            return true;
        }
        i = i + 1;
    }
    assert forall|k: int| !#[trigger] occurs_at(s@, needle@, k) by {
        if 0 <= k < i {
        }
    }
    false
}

} // verus!
