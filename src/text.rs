//! Parsing and formatting of the short texts that the benchmarks read from
//! their command line and from the kernel, and write back to it.

use vstd::prelude::*;

verus! {

/// An ASCII decimal digit.
pub open spec fn is_digit(c: char) -> bool {
    '0' <= c && c <= '9'
}

/// The value of an ASCII decimal digit.
pub open spec fn digit_value(c: char) -> int {
    c as int - '0' as int
}

/// Every character of `s` is a decimal digit.
pub open spec fn all_digits(s: Seq<char>) -> bool {
    forall|i: int| 0 <= i < s.len() ==> is_digit(#[trigger] s[i])
}

/// The number that a string of decimal digits denotes, most significant first.
pub open spec fn digits_value(s: Seq<char>) -> int
    decreases s.len(),
{
    if s.len() == 0 {
        0
    } else {
        digits_value(s.drop_last()) * 10 + digit_value(s.last())
    }
}

/// The digits of an unsigned decimal: the text without one leading `+`.
pub open spec fn unsigned_digits(s: Seq<char>) -> Seq<char> {
    if s.len() > 0 && s[0] == '+' {
        s.drop_first()
    } else {
        s
    }
}

/// What a `usize` written in decimal is: an optional `+`, then one or more
/// digits, denoting a value that fits in a `usize`. Anything else, the empty
/// text and surrounding whitespace included, is no `usize`.
pub open spec fn usize_of(s: Seq<char>) -> Option<usize> {
    let d = unsigned_digits(s);
    if d.len() > 0 && all_digits(d) && digits_value(d) <= usize::MAX {
        Some(digits_value(d) as usize)
    } else {
        None
    }
}

proof fn lemma_digits_value_nonneg(s: Seq<char>)
    requires
        all_digits(s),
    ensures
        digits_value(s) >= 0,
    decreases s.len(),
{
    if s.len() > 0 {
        lemma_digits_value_nonneg(s.drop_last());
    }
}

/// Reads a decimal `usize`: `Some` with its value exactly when `s` is one.
pub fn parse_usize(s: &str) -> (r: Option<usize>)
    ensures
        r == usize_of(s@),
{
    let n = s.unicode_len();
    assert(s@.subrange(0, n as int) =~= s@);
    usize_in(s, 0, n)
}

/// Reads the characters of `s` from `from` up to `to` as a decimal `usize`.
fn usize_in(s: &str, from: usize, to: usize) -> (r: Option<usize>)
    requires
        from <= to <= s@.len(),
    ensures
        r == usize_of(s@.subrange(from as int, to as int)),
{
    let ghost t = s@.subrange(from as int, to as int);
    let mut start: usize = from;
    if from < to && s.get_char(from) == '+' {
        start = from + 1;
    }
    let ghost d = unsigned_digits(t);
    assert(d =~= s@.subrange(start as int, to as int));
    if start >= to {
        return None;
    }
    let mut value: usize = 0;
    let mut i: usize = start;
    while i < to
        invariant
            start <= i <= to,
            to <= s@.len(),
            d == unsigned_digits(t),
            t == s@.subrange(from as int, to as int),
            d =~= s@.subrange(start as int, to as int),
            all_digits(s@.subrange(start as int, i as int)),
            value as int == digits_value(s@.subrange(start as int, i as int)),
        decreases to - i,
    {
        let c = s.get_char(i);
        let ghost prev = s@.subrange(start as int, i as int);
        let ghost next = s@.subrange(start as int, i + 1);
        assert(next.drop_last() =~= prev);
        if c < '0' || c > '9' {
            assert(!is_digit(d[i - start]));
            return None;
        }
        let digit = (c as u32 - '0' as u32) as usize;
        if value > (usize::MAX - digit) / 10 {
            proof {
                assert(d.subrange(0, i + 1 - start) =~= next);
                assert(next.last() == c);
                lemma_prefix_value_bound(d, (i + 1 - start) as int);
            }
            return None;
        }
        value = value * 10 + digit;
        i = i + 1;
    }
    Some(value)
}

/// A longer digit string denotes at least as much as its prefix.
proof fn lemma_prefix_value_bound(s: Seq<char>, k: int)
    requires
        0 <= k <= s.len(),
    ensures
        all_digits(s) ==> digits_value(s) >= digits_value(s.subrange(0, k)),
    decreases s.len() - k,
{
    if k == s.len() {
        assert(s.subrange(0, k) =~= s);
    } else if all_digits(s) {
        lemma_prefix_value_bound(s, k + 1);
        let p = s.subrange(0, k + 1);
        assert(p.drop_last() =~= s.subrange(0, k));
        assert(is_digit(p.last()));
        lemma_digits_value_nonneg(s.subrange(0, k));
    }
}

/// The message with which a command-line value that is no `usize` is refused.
pub open spec fn not_a_usize_message() -> Seq<char> {
    "Not a valid usize"@
}

/// Accepts a command-line value that is a decimal `usize`, and refuses any
/// other with the message "Not a valid usize".
pub fn is_int(arg: String) -> (r: Result<(), String>)
    ensures
        r is Ok <==> usize_of(arg@) is Some,
        r matches Err(e) ==> e@ == not_a_usize_message(),
{
    match parse_usize(arg.as_str()) {
        Some(_) => Ok(()),
        None => Err("Not a valid usize".to_owned()),
    }
}

/// Accepts a command-line value that is a decimal `usize`, and refuses any
/// other with the message "Not a valid usize".
pub fn is_usize(arg: String) -> (r: Result<(), String>)
    ensures
        r is Ok <==> usize_of(arg@) is Some,
        r matches Err(e) ==> e@ == not_a_usize_message(),
{
    is_int(arg)
}

/// A character with the Unicode `White_Space` property, which is what
/// `char::is_whitespace` tests.
pub open spec fn is_white_space(c: char) -> bool {
    let u = c as u32;
    (0x9 <= u && u <= 0xd) || u == 0x20 || u == 0x85 || u == 0xa0 || u == 0x1680 || (0x2000 <= u
        && u <= 0x200a) || u == 0x2028 || u == 0x2029 || u == 0x202f || u == 0x205f || u == 0x3000
}

/// Whether `c` has the Unicode `White_Space` property.
pub fn white_space(c: char) -> (r: bool)
    ensures
        r == is_white_space(c),
{
    let u = c as u32;
    (0x9 <= u && u <= 0xd) || u == 0x20 || u == 0x85 || u == 0xa0 || u == 0x1680 || (0x2000 <= u
        && u <= 0x200a) || u == 0x2028 || u == 0x2029 || u == 0x202f || u == 0x205f || u == 0x3000
}

/// The first position at or after `i` that holds no white space (or the end).
pub open spec fn skip_space(s: Seq<char>, i: int) -> int
    decreases s.len() - i,
{
    if i < 0 || i >= s.len() || !is_white_space(s[i]) {
        i
    } else {
        skip_space(s, i + 1)
    }
}

/// The first position at or after `i` that holds white space (or the end).
pub open spec fn word_end(s: Seq<char>, i: int) -> int
    decreases s.len() - i,
{
    if i < 0 || i >= s.len() || is_white_space(s[i]) {
        i
    } else {
        word_end(s, i + 1)
    }
}

/// The counters that the kernel reports for transparent-huge-page compaction.
#[derive(Clone, Copy, Debug, PartialEq, Eq, Structural)]
pub struct CompactInstrumentationStats {
    /// Number of operations done (including undos).
    pub ops: usize,
    /// Number of operations undone.
    pub undos: usize,
}

/// The counters in a compaction report: its first two words, separated by
/// white space, each a decimal `usize`; what follows them is not read.
pub open spec fn compact_stats_of(s: Seq<char>) -> Option<CompactInstrumentationStats> {
    let a = skip_space(s, 0);
    let b = word_end(s, a);
    let c = skip_space(s, b);
    let d = word_end(s, c);
    match (usize_of(s.subrange(a, b)), usize_of(s.subrange(c, d))) {
        (Some(ops), Some(undos)) => Some(CompactInstrumentationStats { ops, undos }),
        _ => None,
    }
}

/// Finds the first position at or after `i` that holds no white space.
fn skip_space_from(s: &str, n: usize, i: usize) -> (r: usize)
    requires
        n == s@.len(),
        i <= n,
    ensures
        r == skip_space(s@, i as int),
        i <= r <= n,
{
    let mut j = i;
    while j < n && white_space(s.get_char(j))
        invariant
            n == s@.len(),
            i <= j <= n,
            skip_space(s@, j as int) == skip_space(s@, i as int),
        decreases n - j,
    {
        j = j + 1;
    }
    j
}

/// Finds the first position at or after `i` that holds white space.
fn word_end_from(s: &str, n: usize, i: usize) -> (r: usize)
    requires
        n == s@.len(),
        i <= n,
    ensures
        r == word_end(s@, i as int),
        i <= r <= n,
{
    let mut j = i;
    while j < n && !white_space(s.get_char(j))
        invariant
            n == s@.len(),
            i <= j <= n,
            word_end(s@, j as int) == word_end(s@, i as int),
        decreases n - j,
    {
        j = j + 1;
    }
    j
}

/// Reads the compaction counters from the text of a compaction report:
/// `None` unless its first two words are decimal `usize`s.
pub fn parse_compact_stats(text: &str) -> (r: Option<CompactInstrumentationStats>)
    ensures
        r == compact_stats_of(text@),
{
    let n = text.unicode_len();
    let a = skip_space_from(text, n, 0);
    let b = word_end_from(text, n, a);
    let c = skip_space_from(text, n, b);
    let d = word_end_from(text, n, c);
    let ops = usize_in(text, a, b);
    let undos = usize_in(text, c, d);
    match (ops, undos) {
        (Some(ops), Some(undos)) => Some(CompactInstrumentationStats { ops, undos }),
        _ => None,
    }
}

/// The decimal digits of `n` as ASCII bytes, most significant first; none for
/// zero.
pub open spec fn decimal_bytes(n: nat) -> Seq<u8>
    decreases n,
{
    if n == 0 {
        Seq::empty()
    } else {
        decimal_bytes(n / 10).push((48 + n % 10) as u8)
    }
}

/// The request that asks the kernel for `n` compaction attempts: the decimal
/// digits of `n` followed by a NUL byte. For zero it is the NUL byte alone.
pub fn compaction_trigger_bytes(n: u16) -> (r: Vec<u8>)
    ensures
        r@ == decimal_bytes(n as nat).push(0u8),
{
    let mut s: Vec<u8> = Vec::with_capacity(6);
    let mut val: u16 = n;
    while val > 0
        invariant
            decimal_bytes(n as nat) == decimal_bytes(val as nat) + s@,
        decreases val,
    {
        let digit: u8 = (val % 10) as u8;
        let c: u8 = 48u8 + digit;
        proof {
            assert(decimal_bytes(val as nat) == decimal_bytes((val / 10) as nat).push(c));
            assert(decimal_bytes((val / 10) as nat).push(c) + s@ =~= decimal_bytes(
                (val / 10) as nat,
            ) + s@.insert(0, c));
        }
        s.insert(0, c);
        val = val / 10;
    }
    assert(decimal_bytes(0) + s@ =~= s@);
    s.push(0);
    s
}

/// The text of the first capture group of the leftmost match of the regular
/// expression `pattern` in `text`, in the `regex` crate's syntax; none when the
/// pattern does not compile, does not match, or its first group takes no part
/// in the match.
pub uninterp spec fn first_group_match(pattern: Seq<char>, text: Seq<char>) -> Option<Seq<char>>;

/// Relies on `regex::Regex::new` and `Regex::captures`: the first capture
/// group of the leftmost match of `pattern` in `text`.
#[verifier::external_body]
fn first_group(pattern: &str, text: &str) -> (r: Option<String>)
    ensures
        match r {
            Some(g) => first_group_match(pattern@, text@) == Some(g@),
            None => first_group_match(pattern@, text@) is None,
        },
{
    let re = regex::Regex::new(pattern).ok()?;
    re.captures(text).and_then(|c| c.get(1)).map(|m| m.as_str().to_owned())
}

/// The number of logical CPUs from the report of `lscpu`: the digits after
/// the first `CPU(s):` and white space, read as a `usize`.
pub fn cpus_from_lscpu(report: &str) -> (r: Option<usize>)
    ensures
        r == match first_group_match("CPU\\(s\\):\\s+(\\d+)"@, report@) {
            Some(g) => usize_of(g),
            None => None,
        },
{
    match first_group("CPU\\(s\\):\\s+(\\d+)", report) {
        Some(g) => parse_usize(g.as_str()),
        None => None,
    }
}

} // verus!
