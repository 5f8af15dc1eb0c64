//! Small verified helpers shared by the other modules: path joining with the
//! semantics of `PathBuf::push` on Unix, decimal parsing for the
//! supervisor's pid file, and the one outside call of the core, writing a
//! control character to a supervisor's named pipe.

use std::io::Write;

use vstd::prelude::*;

verus! {

/// What joining `rel` onto `base` yields, following `PathBuf::push` on a
/// Unix path: an absolute `rel` replaces `base` entirely; otherwise `rel` is
/// appended, with a single separator inserted where one is missing.
pub open spec fn path_join_spec(base: Seq<char>, rel: Seq<char>) -> Seq<char> {
    if rel.len() > 0 && rel[0] == '/' {
        rel
    } else if base.len() == 0 {
        rel
    } else if base[base.len() - 1] == '/' {
        base + rel
    } else {
        base + seq!['/'] + rel
    }
}

/// Join a relative or absolute path onto a base path.
pub fn path_join(base: &str, rel: &str) -> (r: String)
    ensures
        r@ == path_join_spec(base@, rel@),
{
    let base_len = base.unicode_len();
    let rel_len = rel.unicode_len();
    if rel_len > 0 && rel.get_char(0) == '/' {
        String::from_str(rel)
    } else if base_len == 0 {
        String::from_str(rel)
    } else if base.get_char(base_len - 1) == '/' {
        String::from_str(base).concat(rel)
    } else {
        let mut r = String::from_str(base);
        r.append("/");
        r.append(rel);
        proof {
            reveal_strlit("/");
            assert(r@ =~= base@ + seq!['/'] + rel@);
        }
        r
    }
}

/// The whitespace the pid-file parser tolerates around the digits.
pub open spec fn is_space(c: char) -> bool {
    c == ' ' || c == '\t' || c == '\n' || c == '\r'
}

/// A decimal digit.
pub open spec fn is_digit(c: char) -> bool {
    '0' <= c && c <= '9'
}

/// Every character of `s` is a decimal digit.
pub open spec fn all_digits(s: Seq<char>) -> bool {
    forall|i: int| 0 <= i < s.len() ==> is_digit(s[i])
}

/// The number the digit string `s` denotes in decimal.
pub open spec fn digits_value(s: Seq<char>) -> int
    decreases s.len(),
{
    if s.len() == 0 {
        0
    } else {
        digits_value(s.drop_last()) * 10 + (s.last() as u32 - '0' as u32)
    }
}

/// `s` without its leading whitespace.
pub open spec fn trim_start_spec(s: Seq<char>) -> Seq<char>
    decreases s.len(),
{
    if s.len() > 0 && is_space(s[0]) {
        trim_start_spec(s.drop_first())
    } else {
        s
    }
}

/// `s` without its trailing whitespace.
pub open spec fn trim_end_spec(s: Seq<char>) -> Seq<char>
    decreases s.len(),
{
    if s.len() > 0 && is_space(s.last()) {
        trim_end_spec(s.drop_last())
    } else {
        s
    }
}

/// `s` without leading and trailing whitespace.
pub open spec fn trim_spec(s: Seq<char>) -> Seq<char> {
    trim_end_spec(trim_start_spec(s))
}

/// Whether `s`, once trimmed, is a decimal numeral that fits in a `u32`.
pub open spec fn parses_to_u32(s: Seq<char>) -> bool {
    let t = trim_spec(s);
    t.len() > 0 && all_digits(t) && digits_value(t) <= u32::MAX
}

proof fn lemma_trim_start_at(s: Seq<char>, k: int)
    requires
        0 <= k <= s.len(),
        forall|i: int| 0 <= i < k ==> is_space(s[i]),
        k < s.len() ==> !is_space(s[k]),
    ensures
        trim_start_spec(s) == s.subrange(k, s.len() as int),
    decreases k,
{
    if k == 0 {
        assert(s.subrange(0, s.len() as int) =~= s);
    } else {
        let d = s.drop_first();
        assert forall|i: int| 0 <= i < k - 1 implies is_space(d[i]) by {
            assert(d[i] == s[i + 1]);
        }
        assert(k - 1 < d.len() ==> !is_space(d[k - 1]));
        lemma_trim_start_at(d, k - 1);
        assert(d.subrange(k - 1, d.len() as int) =~= s.subrange(k, s.len() as int));
    }
}

proof fn lemma_trim_end_at(s: Seq<char>, k: int)
    requires
        0 <= k <= s.len(),
        forall|i: int| k <= i < s.len() ==> is_space(s[i]),
        k > 0 ==> !is_space(s[k - 1]),
    ensures
        trim_end_spec(s) == s.subrange(0, k),
    decreases s.len() - k,
{
    if k == s.len() {
        assert(s.subrange(0, k) =~= s);
    } else {
        assert(is_space(s.last()));
        let d = s.drop_last();
        assert forall|i: int| k <= i < d.len() implies is_space(d[i]) by {
            assert(d[i] == s[i]);
        }
        lemma_trim_end_at(d, k);
        assert(d.subrange(0, k) =~= s.subrange(0, k));
    }
}

proof fn lemma_digits_value_nonneg(s: Seq<char>)
    requires
        all_digits(s),
    ensures
        digits_value(s) >= 0,
    decreases s.len(),
{
    if s.len() > 0 {
        let d = s.drop_last();
        assert forall|i: int| 0 <= i < d.len() implies is_digit(d[i]) by {
            assert(d[i] == s[i]);
        }
        lemma_digits_value_nonneg(d);
        assert(is_digit(s.last()));
    }
}

proof fn lemma_digits_value_prefix(s: Seq<char>, j: int)
    requires
        all_digits(s),
        0 <= j <= s.len(),
    ensures
        digits_value(s.take(j)) <= digits_value(s),
    decreases s.len() - j,
{
    if j == s.len() {
        assert(s.take(j) =~= s);
    } else {
        lemma_digits_value_prefix(s, j + 1);
        let t = s.take(j + 1);
        assert(t.drop_last() =~= s.take(j));
        assert forall|i: int| 0 <= i < t.len() implies is_digit(t[i]) by {
            assert(t[i] == s[i]);
        }
        lemma_digits_value_nonneg(t.drop_last());
        assert(is_digit(t.last()));
        assert(digits_value(s.take(j)) <= digits_value(t));
    }
}

/// Whether `c` counts as whitespace for the pid-file parser.
fn is_space_char(c: char) -> (r: bool)
    ensures
        r == is_space(c),
{
    c == ' ' || c == '\t' || c == '\n' || c == '\r'
}

/// Parse `s` as a decimal `u32`, tolerating surrounding whitespace; `None`
/// when the trimmed text is empty, holds a non-digit, or overflows.
pub fn parse_u32(s: &str) -> (r: Option<u32>)
    ensures
        parses_to_u32(s@) ==> r == Some(digits_value(trim_spec(s@)) as u32),
        parses_to_u32(s@) ==> 0 <= digits_value(trim_spec(s@)) <= u32::MAX,
        !parses_to_u32(s@) ==> r is None,
{
    let len = s.unicode_len();
    let mut start: usize = 0;
    while start < len && is_space_char(s.get_char(start))
        invariant
            start <= len,
            len == s@.len(),
            forall|i: int| 0 <= i < start ==> is_space(s@[i]),
        decreases len - start,
    {
        start = start + 1;
    }
    let mut end: usize = len;
    while end > start && is_space_char(s.get_char(end - 1))
        invariant
            start <= end <= len,
            len == s@.len(),
            forall|i: int| 0 <= i < start ==> is_space(s@[i]),
            forall|i: int| end <= i < len ==> is_space(s@[i]),
        decreases end,
    {
        end = end - 1;
    }
    proof {
        lemma_trim_start_at(s@, start as int);
        let t1 = s@.subrange(start as int, len as int);
        assert forall|i: int| end - start <= i < t1.len() implies is_space(t1[i]) by {
            assert(t1[i] == s@[i + start]);
        }
        assert(end - start > 0 ==> !is_space(t1[end - start - 1]));
        lemma_trim_end_at(t1, end - start);
        assert(trim_spec(s@) =~= s@.subrange(start as int, end as int));
    }
    if start == end {
        return None;
    }
    let ghost t = s@.subrange(start as int, end as int);
    let mut v: u32 = 0;
    let mut i: usize = start;
    while i < end
        invariant
            start <= i <= end <= len,
            len == s@.len(),
            t == s@.subrange(start as int, end as int),
            t == trim_spec(s@),
            all_digits(s@.subrange(start as int, i as int)),
            v == digits_value(s@.subrange(start as int, i as int)),
        decreases end - i,
    {
        let c = s.get_char(i);
        if !('0' <= c && c <= '9') {
            proof {
                assert(t[i - start] == s@[i as int]);
                assert(!all_digits(t));
            }
            return None;
        }
        let d: u32 = c as u32 - '0' as u32;
        proof {
            let t1 = s@.subrange(start as int, i as int + 1);
            assert(t1.drop_last() =~= s@.subrange(start as int, i as int));
            assert(t1.last() == s@[i as int]);
            assert forall|j: int| 0 <= j < t1.len() implies is_digit(#[trigger] t1[j]) by {
                assert(t1[j] == s@[start + j]);
            }
        }
        // 429496729 == u32::MAX / 10; past it, one more digit overflows.
        if v > 429496729 || (v == 429496729 && d > 5) {
            proof {
                let t1 = s@.subrange(start as int, i as int + 1);
                assert(digits_value(t1) > u32::MAX);
                if all_digits(t) {
                    lemma_digits_value_prefix(t, i - start + 1);
                    assert(t.take(i - start + 1) =~= t1);
                    assert(digits_value(t) > u32::MAX);
                }
            }
            return None;
        }
        v = v * 10 + d;
        i = i + 1;
    }
    proof {
        assert(s@.subrange(start as int, i as int) =~= t);
    }
    Some(v)
}

/// How writing to the supervisor's control pipe can fail: opening the pipe,
/// or the write itself; each carries the failure's message.
#[derive(Debug)]
pub enum FifoFailure {
    Open(String),
    Write(String),
}

/// Relies on `unix_named_pipe::open_write`, which opens the path write-only
/// with `O_NONBLOCK`, so a missing pipe or one without a reader fails
/// instead of blocking; the `write!` then sends the bytes of `a` as is.
/// Nothing is promised of the outcome: whether the pipe exists and accepts
/// the bytes is the filesystem's affair.
#[verifier::external_body]
pub fn write_to_fifo(p: &String, a: &str) -> (r: Result<(), FifoFailure>) {
    let mut fifo = match unix_named_pipe::open_write(p.as_str()) {
        Ok(f) => f,
        Err(e) => return Err(FifoFailure::Open(format!("{}", e))),
    };
    match write!(fifo, "{}", a) {
        Ok(()) => Ok(()),
        Err(e) => Err(FifoFailure::Write(format!("{}", e))),
    }
}

} // verus!
