//! The read-only environment buffer an agent receives at creation.
//!
//! The wire format is newline-separated `key=value` entries in a byte buffer
//! of at most `MAX_ENVIRONMENT_SIZE` bytes, terminated by the first zero byte.
//! This format is one of the two bit-exact contracts of the interface, so the
//! lookup is specified byte for byte.
use vstd::prelude::*;

verus! {

/// Capacity of the environment buffer.
pub const MAX_ENVIRONMENT_SIZE: usize = 1024;

/// Newline, the entry separator.
pub const NEWLINE: u8 = 10;

/// The key/value separator within one entry.
pub const EQUALS: u8 = 61;

/// Index of the first occurrence of `b` in `s`, or `s.len()` if absent.
pub open spec fn find_byte(s: Seq<u8>, b: u8) -> int
    decreases s.len(),
{
    if s.len() == 0 {
        0
    } else if s[0] == b {
        0
    } else {
        1 + find_byte(s.skip(1), b)
    }
}

/// `find_byte` points at the first occurrence: everything before it differs
/// from `b`, and it lands on `b` unless `b` is absent.
pub proof fn lemma_find_byte(s: Seq<u8>, b: u8)
    ensures
        0 <= find_byte(s, b) <= s.len(),
        forall|i: int| 0 <= i < find_byte(s, b) ==> s[i] != b,
        find_byte(s, b) < s.len() ==> s[find_byte(s, b)] == b,
    decreases s.len(),
{
    if s.len() == 0 {
    } else if s[0] == b {
    } else {
        lemma_find_byte(s.skip(1), b);
        assert forall|i: int| 0 <= i < find_byte(s, b) implies s[i] != b by {
            if i > 0 {
                assert(s.skip(1)[i - 1] == s[i]);
            }
        }
        if find_byte(s, b) < s.len() {
            assert(s.skip(1)[find_byte(s, b) - 1] == s[find_byte(s, b)]);
        }
    }
}

/// A position that is first in the pointwise sense is what `find_byte` finds.
pub proof fn lemma_find_byte_is(s: Seq<u8>, b: u8, j: int)
    requires
        0 <= j <= s.len(),
        forall|i: int| 0 <= i < j ==> s[i] != b,
        j < s.len() ==> s[j] == b,
    ensures
        find_byte(s, b) == j,
    decreases s.len(),
{
    if s.len() == 0 {
    } else if s[0] == b {
    } else {
        assert forall|i: int| 0 <= i < j - 1 implies s.skip(1)[i] != b by {
            assert(s.skip(1)[i] == s[i + 1]);
        }
        if j < s.len() {
            assert(s.skip(1)[j - 1] == s[j]);
        }
        lemma_find_byte_is(s.skip(1), b, j - 1);
    }
}

/// The value bound to `key` in the entry list `s`, if any.
///
/// Entries are separated by newlines; within an entry the key runs up to the
/// first equals sign. An entry that equals the key but carries no equals sign
/// ends the search with no value, matching a lookup that stops at the first
/// entry whose key part agrees.
pub open spec fn getenv_spec(s: Seq<u8>, key: Seq<u8>) -> Option<Seq<u8>>
    decreases s.len(),
        via getenv_spec_decreases
{
    if s.len() == 0 {
        None
    } else {
        let n = find_byte(s, NEWLINE);
        let line = s.take(n);
        let e = find_byte(line, EQUALS);
        if e < line.len() && line.take(e) == key {
            Some(line.skip(e + 1))
        } else if e == line.len() && line == key {
            None
        } else if n < s.len() {
            getenv_spec(s.skip(n + 1), key)
        } else {
            None
        }
    }
}

#[via_fn]
proof fn getenv_spec_decreases(s: Seq<u8>, key: Seq<u8>) {
    lemma_find_byte(s, NEWLINE);
}

/// One agent's immutable environment view: the active content of the buffer,
/// cut at the first zero byte and capped at the buffer capacity.
pub struct Environment {
    bytes: Vec<u8>,
}

impl View for Environment {
    type V = Seq<u8>;

    closed spec fn view(&self) -> Seq<u8> {
        self.bytes@
    }
}

/// The active content of a raw buffer: everything before the first zero byte,
/// capped at `MAX_ENVIRONMENT_SIZE` bytes.
pub open spec fn active_content(raw: Seq<u8>) -> Seq<u8> {
    let cut = if find_byte(raw, 0) < MAX_ENVIRONMENT_SIZE {
        find_byte(raw, 0)
    } else {
        MAX_ENVIRONMENT_SIZE as int
    };
    raw.take(cut)
}

impl Environment {
    /// The content never exceeds the buffer capacity.
    pub open spec fn wf(&self) -> bool {
        self@.len() <= MAX_ENVIRONMENT_SIZE
    }

    /// An empty environment.
    pub fn new() -> (r: Environment)
        ensures
            r.wf(),
            r@ == Seq::<u8>::empty(),
    {
        Environment { bytes: Vec::new() }
    }

    /// Builds the environment view of a raw buffer, as populated once at
    /// agent start: content ends at the first zero byte and at the buffer
    /// capacity, whichever comes first.
    pub fn from_raw(raw: Vec<u8>) -> (r: Environment)
        ensures
            r.wf(),
            r@ == active_content(raw@),
    {
        proof {
            lemma_find_byte(raw@, 0);
        }
        let nul = find_byte_range(&raw, 0, 0, raw.len());
        let cut = if nul < MAX_ENVIRONMENT_SIZE { nul } else { MAX_ENVIRONMENT_SIZE };
        let mut bytes = copy_range(&raw, 0, cut);
        proof {
            assert(raw@.skip(0) =~= raw@);
            assert(raw@.subrange(0, cut as int) =~= raw@.take(cut as int));
        }
        Environment { bytes }
    }

    /// The active content of the environment, as one byte buffer.
    pub fn read_environment(&self) -> (r: &Vec<u8>)
        ensures
            r@ == self@,
    {
        &self.bytes
    }

    /// Looks up `key` in the entry list.
    pub fn getenv(&self, key: &Vec<u8>) -> (r: Option<Vec<u8>>)
        requires
            self.wf(),
        ensures
            r is Some <==> getenv_spec(self@, key@) is Some,
            r is Some ==> r->Some_0@ == getenv_spec(self@, key@)->Some_0,
    {
        proof {
            assert(self@.skip(0) =~= self@);
        }
        getenv_from(&self.bytes, 0, key)
    }
}

/// Scans `v` in `[start, end)` for `b`; contracts speak of `find_byte` over
/// that range.
fn find_byte_range(v: &Vec<u8>, b: u8, start: usize, end: usize) -> (i: usize)
    requires
        start <= end <= v@.len(),
    ensures
        i == start + find_byte(v@.subrange(start as int, end as int), b),
        start <= i <= end,
{
    proof {
        lemma_find_byte(v@.subrange(start as int, end as int), b);
    }
    let ghost range = v@.subrange(start as int, end as int);
    let mut i: usize = start;
    loop
        invariant
            start <= i <= end <= v@.len(),
            range == v@.subrange(start as int, end as int),
            forall|k: int| start <= k < i ==> v@[k] != b,
        decreases end - i,
    {
        if i == end {
            proof {
                assert forall|k: int| 0 <= k < range.len() implies range[k] != b by {
                    assert(range[k] == v@[start + k]);
                }
                lemma_find_byte_is(range, b, range.len() as int);
            }
            return i;
        }
        if v[i] == b {
            proof {
                assert forall|k: int| 0 <= k < i - start implies range[k] != b by {
                    assert(range[k] == v@[start + k]);
                }
                assert(range[i - start] == v@[i as int]);
                lemma_find_byte_is(range, b, i - start);
            }
            return i;
        }
        i = i + 1;
    }
}

/// Copies `v[start..end]` into a fresh vector.
fn copy_range(v: &Vec<u8>, start: usize, end: usize) -> (r: Vec<u8>)
    requires
        start <= end <= v@.len(),
    ensures
        r@ == v@.subrange(start as int, end as int),
{
    let mut r: Vec<u8> = Vec::new();
    let mut i: usize = start;
    while i < end
        invariant
            start <= i <= end <= v@.len(),
            r@ =~= v@.subrange(start as int, i as int),
        decreases end - i,
    {
        r.push(v[i]);
        i = i + 1;
    }
    proof {
        assert(r@ =~= v@.subrange(start as int, end as int));
    }
    r
}

/// Compares `v[start..end]` with `key`.
fn range_eq(v: &Vec<u8>, start: usize, end: usize, key: &Vec<u8>) -> (r: bool)
    requires
        start <= end <= v@.len(),
    ensures
        r == (v@.subrange(start as int, end as int) == key@),
{
    if end - start != key.len() {
        proof {
            assert(v@.subrange(start as int, end as int).len() == end - start);
        }
        return false;
    }
    let mut i: usize = 0;
    while i < key.len()
        invariant
            0 <= i <= key@.len(),
            start <= end <= v@.len(),
            end - start == key@.len(),
            forall|k: int| 0 <= k < i ==> v@[start + k] == key@[k],
        decreases key@.len() - i,
    {
        if v[start + i] != key[i] {
            proof {
                assert(v@.subrange(start as int, end as int)[i as int] == v@[start + i]);
            }
            return false;
        }
        i = i + 1;
    }
    proof {
        assert(v@.subrange(start as int, end as int) =~= key@);
    }
    true
}

/// The lookup over the suffix of the buffer that starts at `start`.
fn getenv_from(bytes: &Vec<u8>, start: usize, key: &Vec<u8>) -> (r: Option<Vec<u8>>)
    requires
        start <= bytes@.len(),
    ensures
        r is Some <==> getenv_spec(bytes@.skip(start as int), key@) is Some,
        r is Some ==> r->Some_0@ == getenv_spec(bytes@.skip(start as int), key@)->Some_0,
    decreases bytes@.len() - start,
{
    let ghost s = bytes@.skip(start as int);
    if start == bytes.len() {
        return None;
    }
    let nl = find_byte_range(bytes, NEWLINE, start, bytes.len());
    proof {
        assert(bytes@.subrange(start as int, bytes@.len() as int) =~= s);
    }
    let ghost n = find_byte(s, NEWLINE);
    let ghost line = s.take(n);
    proof {
        assert(line =~= bytes@.subrange(start as int, nl as int));
    }
    let eq = find_byte_range(bytes, EQUALS, start, nl);
    let ghost e = find_byte(line, EQUALS);
    if eq < nl {
        // The entry has a key part; compare it.
        if range_eq(bytes, start, eq, key) {
            proof {
                assert(line.take(e) =~= bytes@.subrange(start as int, eq as int));
            }
            let value = copy_range(bytes, eq + 1, nl);
            proof {
                assert(line.skip(e + 1) =~= bytes@.subrange(eq + 1, nl as int));
            }
            return Some(value);
        }
        proof {
            assert(line.take(e) =~= bytes@.subrange(start as int, eq as int));
        }
    } else {
        // No equals sign in this entry: a bare key that matches stops the
        // search with no value.
        if range_eq(bytes, start, nl, key) {
            return None;
        }
    }
    if nl < bytes.len() {
        proof {
            assert(bytes@.skip(nl + 1) =~= s.skip(n + 1));
        }
        getenv_from(bytes, nl + 1, key)
    } else {
        None
    }
}

/// A decimal digit byte.
pub open spec fn is_digit(b: u8) -> bool {
    48 <= b <= 57
}

/// Every byte of `s` is a decimal digit.
pub open spec fn all_digits(s: Seq<u8>) -> bool {
    forall|i: int| 0 <= i < s.len() ==> is_digit(#[trigger] s[i])
}

/// The value of a digit string, most significant digit first.
pub open spec fn digits_val(s: Seq<u8>) -> int
    decreases s.len(),
{
    if s.len() == 0 {
        0
    } else {
        digits_val(s.take(s.len() - 1)) * 10 + (s.last() - 48)
    }
}

/// A digit string's value is never negative.
pub proof fn lemma_digits_val_nonneg(s: Seq<u8>)
    requires
        all_digits(s),
    ensures
        digits_val(s) >= 0,
    decreases s.len(),
{
    if s.len() > 0 {
        assert(all_digits(s.take(s.len() - 1)));
        lemma_digits_val_nonneg(s.take(s.len() - 1));
    }
}

/// The number a configuration value denotes: the value of a plain digit
/// string, saturated at `cap`; anything else denotes zero.
pub open spec fn parse_number_spec(s: Seq<u8>, cap: int) -> int {
    if s.len() > 0 && all_digits(s) {
        if digits_val(s) <= cap { digits_val(s) } else { cap }
    } else {
        0
    }
}

/// Largest cap `parse_number` accepts, so the running value stays in range.
pub const PARSE_CAP_LIMIT: i64 = 0x0100_0000_0000_0000;

/// Parses a configuration value as a plain decimal number, saturating at
/// `cap`; malformed values fall back to zero.
pub fn parse_number(v: &Vec<u8>, cap: i64) -> (r: i64)
    requires
        0 <= cap <= PARSE_CAP_LIMIT,
    ensures
        r == parse_number_spec(v@, cap as int),
        0 <= r <= cap,
{
    if v.len() == 0 {
        return 0;
    }
    let mut acc: i64 = 0;
    let mut i: usize = 0;
    while i < v.len()
        invariant
            0 < v@.len(),
            0 <= i <= v@.len(),
            0 <= cap <= PARSE_CAP_LIMIT,
            all_digits(v@.take(i as int)),
            acc == (if digits_val(v@.take(i as int)) <= cap { digits_val(v@.take(i as int)) } else { cap as int }),
            0 <= acc <= cap,
        decreases v@.len() - i,
    {
        let b = v[i];
        if b < 48 || b > 57 {
            proof {
                assert(!is_digit(v@[i as int]));
            }
            return 0;
        }
        let ghost pre = v@.take(i as int);
        let ghost cur = v@.take(i + 1);
        proof {
            assert(cur.take(cur.len() - 1) =~= pre);
            assert(cur.last() == v@[i as int]);
            assert(all_digits(cur)) by {
                assert forall|k: int| 0 <= k < cur.len() implies is_digit(cur[k]) by {
                    if k < i {
                        assert(cur[k] == pre[k]);
                    }
                }
            }
            lemma_digits_val_nonneg(pre);
            lemma_digits_val_nonneg(cur);
        }
        let d: i64 = (b - 48) as i64;
        let candidate: i64 = acc * 10 + d;
        if candidate > cap {
            acc = cap;
            proof {
                if digits_val(pre) <= cap {
                    assert(digits_val(cur) == digits_val(pre) * 10 + d);
                    assert(digits_val(cur) > cap);
                } else {
                    assert(digits_val(cur) == digits_val(pre) * 10 + d);
                    assert(digits_val(pre) * 10 >= digits_val(pre)) by (nonlinear_arith)
                        requires digits_val(pre) >= 0;
                    assert(digits_val(cur) > cap);
                }
            }
        } else {
            acc = candidate;
            proof {
                assert(digits_val(cur) == digits_val(pre) * 10 + d);
                if digits_val(pre) > cap {
                    // Only possible when the cap is zero and the digit is
                    // zero: the saturated value stays at the cap.
                    assert(candidate == cap * 10 + d);
                    assert(cap == 0 && d == 0);
                    assert(digits_val(pre) * 10 >= digits_val(pre)) by (nonlinear_arith)
                        requires digits_val(pre) >= 0;
                    assert(digits_val(cur) > cap);
                }
            }
        }
        i = i + 1;
    }
    proof {
        assert(v@.take(v@.len() as int) =~= v@);
    }
    acc
}

} // verus!
