//! Parsing of the OS-specific "what is listening on this port" output, and
//! the decisions around reclaiming a port. The shell-out and the process
//! enumeration are performed by the surrounding application; this module
//! extracts candidate process ids from the raw output bytes and shapes the
//! results handed back to the operator.

use vstd::prelude::*;

verus! {

/// What else occupies a TCP port: a process id and its name, resolved by the
/// surrounding application's process enumeration.
#[derive(Debug, PartialEq)]
pub struct ProcessInfo {
    pub pid: u32,
    pub name: String,
}

/// Whitespace inside a line, as the tokenizer sees it: space, tab, or the
/// carriage return left by a line split on line feeds alone.
pub open spec fn is_space(b: u8) -> bool {
    b == 32 || b == 9 || b == 13
}

/// An ASCII decimal digit.
pub open spec fn is_digit(b: u8) -> bool {
    48 <= b <= 57
}

/// Value of a digit string read in base ten.
pub open spec fn dec_val(s: Seq<u8>) -> int
    decreases s.len(),
{
    if s.len() == 0 {
        0
    } else {
        dec_val(s.drop_last()) * 10 + (s.last() - 48)
    }
}

/// Whether every byte is a decimal digit.
pub open spec fn all_digits(s: Seq<u8>) -> bool {
    forall|i: int| 0 <= i < s.len() ==> is_digit(#[trigger] s[i])
}

/// The process id a token denotes: a non-empty all-digit token whose value
/// fits in 32 bits; anything else is no process id.
pub open spec fn parse_u32_spec(s: Seq<u8>) -> Option<u32> {
    if s.len() > 0 && all_digits(s) && dec_val(s) <= u32::MAX {
        Some(dec_val(s) as u32)
    } else {
        None
    }
}

proof fn lemma_dec_val_nonneg(s: Seq<u8>)
    requires
        all_digits(s),
    ensures
        dec_val(s) >= 0,
    decreases s.len(),
{
    if s.len() > 0 {
        assert(all_digits(s.drop_last())) by {
            assert(forall|i: int|
                0 <= i < s.drop_last().len() ==> s.drop_last()[i] == s[i]);
        }
        lemma_dec_val_nonneg(s.drop_last());
    }
}

/// Reading more digits never shrinks the value.
proof fn lemma_dec_val_monotone(s: Seq<u8>, i: int, j: int)
    requires
        all_digits(s),
        0 <= i <= j <= s.len(),
    ensures
        dec_val(s.take(i)) <= dec_val(s.take(j)),
    decreases j - i,
{
    if i < j {
        lemma_dec_val_monotone(s, i, j - 1);
        assert(s.take(j).drop_last() =~= s.take(j - 1));
        assert(s.take(j).last() == s[j - 1]);
        assert(all_digits(s.take(j - 1))) by {
            assert(forall|m: int| 0 <= m < j - 1 ==> s.take(j - 1)[m] == s[m]);
        }
        lemma_dec_val_nonneg(s.take(j - 1));
    }
}

/// Reads a non-empty all-digit byte string as a 32-bit process id.
pub fn parse_u32_bytes(s: &[u8]) -> (r: Option<u32>)
    ensures
        r == parse_u32_spec(s@),
{
    if s.len() == 0 {
        return None;
    }
    let mut val: u64 = 0;
    let mut i: usize = 0;
    while i < s.len()
        invariant
            0 < s@.len(),
            i <= s@.len(),
            all_digits(s@.take(i as int)),
            val == dec_val(s@.take(i as int)),
            val <= u32::MAX,
        decreases s@.len() - i,
    {
        let b = s[i];
        if b < 48 || b > 57 {
            proof {
                assert(!is_digit(s@[i as int]));
            }
            return None;
        }
        proof {
            assert(s@.take(i + 1).drop_last() =~= s@.take(i as int));
            assert(s@.take(i + 1).last() == s@[i as int]);
            assert(all_digits(s@.take(i + 1))) by {
                assert(forall|m: int|
                    0 <= m < i + 1 ==> s@.take(i + 1)[m] == s@[m]);
                assert(is_digit(s@[i as int]));
            }
        }
        let d: u64 = (b - 48) as u64;
        let next: u64 = val * 10 + d;
        if next > 0xFFFF_FFFF {
            proof {
                if all_digits(s@) {
                    lemma_dec_val_monotone(s@, i + 1, s@.len() as int);
                    assert(s@.take(s@.len() as int) =~= s@);
                }
            }
            return None;
        }
        val = next;
        i = i + 1;
    }
    proof {
        assert(s@.take(s@.len() as int) =~= s@);
    }
    Some(val as u32)
}

/// The line with its trailing whitespace removed.
pub open spec fn rstrip(s: Seq<u8>) -> Seq<u8>
    decreases s.len(),
{
    if s.len() > 0 && is_space(s.last()) {
        rstrip(s.drop_last())
    } else {
        s
    }
}

/// The maximal non-whitespace run at the end of the line.
pub open spec fn suffix_run(s: Seq<u8>) -> Seq<u8>
    decreases s.len(),
{
    if s.len() == 0 || is_space(s.last()) {
        Seq::<u8>::empty()
    } else {
        suffix_run(s.drop_last()).push(s.last())
    }
}

/// The last whitespace-separated token of a line; empty when the line holds
/// no token.
pub open spec fn last_token(s: Seq<u8>) -> Seq<u8> {
    suffix_run(rstrip(s))
}

/// Whether `b` counts as token-separating whitespace.
fn is_space_byte(b: u8) -> (r: bool)
    ensures
        r == is_space(b),
{
    b == 32 || b == 9 || b == 13
}

/// The process id named by the last token of a line, if any.
pub fn last_token_pid(line: &[u8]) -> (r: Option<u32>)
    ensures
        r == parse_u32_spec(last_token(line@)),
{
    let mut j: usize = line.len();
    proof {
        assert(line@.take(line@.len() as int) =~= line@);
    }
    while j > 0 && is_space_byte(line[j - 1])
        invariant
            j <= line@.len(),
            rstrip(line@) == rstrip(line@.take(j as int)),
        decreases j,
    {
        proof {
            assert(line@.take(j as int).drop_last() =~= line@.take(j - 1));
            assert(line@.take(j as int).last() == line@[j - 1]);
        }
        j = j - 1;
    }
    proof {
        if j > 0 {
            assert(line@.take(j as int).last() == line@[j - 1]);
        }
        assert(rstrip(line@) == line@.take(j as int));
    }
    let mut i: usize = j;
    while i > 0 && !is_space_byte(line[i - 1])
        invariant
            i <= j <= line@.len(),
            rstrip(line@) == line@.take(j as int),
            suffix_run(line@.take(j as int)) == suffix_run(line@.take(i as int)) + line@.subrange(
                i as int,
                j as int,
            ),
        decreases i,
    {
        proof {
            assert(line@.take(i as int).drop_last() =~= line@.take(i - 1));
            assert(line@.take(i as int).last() == line@[i - 1]);
            assert(suffix_run(line@.take(i - 1)).push(line@[i - 1]) + line@.subrange(
                i as int,
                j as int,
            ) =~= suffix_run(line@.take(i - 1)) + line@.subrange(i - 1, j as int));
        }
        i = i - 1;
    }
    proof {
        if i > 0 {
            assert(line@.take(i as int).last() == line@[i - 1]);
        }
        assert(suffix_run(line@.take(i as int)) =~= Seq::<u8>::empty());
        assert(last_token(line@) == line@.subrange(i as int, j as int));
    }
    let tok = vstd::slice::slice_subrange(line, i, j);
    parse_u32_bytes(tok)
}

/// The marker a listening socket's line carries in the enumeration output.
pub open spec fn listening_pat() -> Seq<u8> {
    seq![76u8, 73u8, 83u8, 84u8, 69u8, 78u8, 73u8, 78u8, 71u8]
}

/// Whether the marker occurs anywhere in the line.
pub open spec fn contains_listening(s: Seq<u8>) -> bool {
    exists|k: int| 0 <= k <= s.len() - 9 && #[trigger] s.subrange(k, k + 9) == listening_pat()
}

/// Whether the marker stands at position `k`.
fn listening_at(line: &[u8], k: usize) -> (r: bool)
    requires
        k + 9 <= line@.len(),
    ensures
        r == (line@.subrange(k as int, k as int + 9) == listening_pat()),
{
    let r = line[k] == 76 && line[k + 1] == 73 && line[k + 2] == 83 && line[k + 3] == 84 && line[k
        + 4] == 69 && line[k + 5] == 78 && line[k + 6] == 73 && line[k + 7] == 78 && line[k + 8]
        == 71;
    proof {
        let sub = line@.subrange(k as int, k as int + 9);
        if r {
            assert(sub =~= listening_pat());
        } else {
            if sub == listening_pat() {
                assert(forall|m: int| 0 <= m < 9 ==> sub[m] == line@[k + m]);
                assert(false);
            }
        }
    }
    r
}

/// Whether the line reports a listening socket.
pub fn has_listening(line: &[u8]) -> (r: bool)
    ensures
        r == contains_listening(line@),
{
    if line.len() < 9 {
        return false;
    }
    let last_start = line.len() - 9;
    let mut k: usize = 0;
    while k <= last_start
        invariant
            9 <= line@.len() <= usize::MAX,
            last_start == line@.len() - 9,
            k <= last_start + 1,
            forall|m: int|
                0 <= m < k ==> #[trigger] line@.subrange(m, m + 9) != listening_pat(),
        decreases last_start + 1 - k,
    {
        if listening_at(line, k) {
            return true;
        }
        k = k + 1;
    }
    false
}

/// Index of the first line feed, or the length when there is none.
pub open spec fn first_nl(s: Seq<u8>) -> int
    decreases s.len(),
{
    if s.len() == 0 {
        0
    } else if s[0] == 10 {
        0
    } else {
        1 + first_nl(s.drop_first())
    }
}

/// The first line feed's index lies in the string, nothing before it is a
/// line feed, and it points at one unless there is none.
pub proof fn lemma_first_nl(s: Seq<u8>)
    ensures
        0 <= first_nl(s) <= s.len(),
        first_nl(s) < s.len() ==> s[first_nl(s)] == 10,
        forall|m: int| 0 <= m < first_nl(s) ==> s[m] != 10,
    decreases s.len(),
{
    if s.len() == 0 {
    } else if s[0] == 10 {
    } else {
        lemma_first_nl(s.drop_first());
        assert forall|m: int| 0 <= m < first_nl(s) implies s[m] != 10 by {
            if m > 0 {
                assert(s.drop_first()[m - 1] == s[m]);
            }
        }
    }
}

/// When nothing before `k` is a line feed and `k` is one (or the end), the
/// first line feed is at `k`.
proof fn lemma_first_nl_is(s: Seq<u8>, k: int)
    requires
        0 <= k <= s.len(),
        forall|m: int| 0 <= m < k ==> s[m] != 10,
        k < s.len() ==> s[k] == 10,
    ensures
        first_nl(s) == k,
    decreases k,
{
    if s.len() == 0 {
    } else if k == 0 {
        if s.len() > 0 && s[0] != 10 {
            assert(k < s.len());
        }
    } else {
        assert(s[0] != 10);
        let rest = s.drop_first();
        assert(forall|m: int| 0 <= m < rest.len() ==> rest[m] == s[m + 1]);
        lemma_first_nl_is(rest, k - 1);
    }
}

/// What one line contributes to the candidate list: its last token's process
/// id, when the line reports a listening socket and the token is an id.
pub open spec fn line_contrib(line: Seq<u8>) -> Seq<u32> {
    if contains_listening(line) {
        match parse_u32_spec(last_token(line)) {
            Some(p) => seq![p],
            None => Seq::<u32>::empty(),
        }
    } else {
        Seq::<u32>::empty()
    }
}

/// All candidate process ids in the enumeration output, in line order: one
/// per line that reports a listening socket and ends in a numeric token.
pub open spec fn listening_pids(s: Seq<u8>) -> Seq<u32>
    decreases s.len(),
    via listening_pids_decreases
{
    if s.len() == 0 {
        Seq::<u32>::empty()
    } else if first_nl(s) == s.len() {
        line_contrib(s)
    } else {
        line_contrib(s.take(first_nl(s))) + listening_pids(s.skip(first_nl(s) + 1))
    }
}

#[via_fn]
proof fn listening_pids_decreases(s: Seq<u8>) {
    lemma_first_nl(s);
}

/// Extracts all candidate process ids from the enumeration output. The
/// surrounding application resolves each candidate, in order, against its
/// process table and reports the first that exists.
pub fn extract_listening_pids(out: &[u8]) -> (r: Vec<u32>)
    ensures
        r@ == listening_pids(out@),
{
    let mut r: Vec<u32> = Vec::new();
    proof {
        assert(out@.skip(0) =~= out@);
    }
    let mut pos: usize = 0;
    while pos < out.len()
        invariant
            pos <= out@.len(),
            r@ + listening_pids(out@.skip(pos as int)) == listening_pids(out@),
        decreases out@.len() - pos,
    {
        let mut e: usize = pos;
        while e < out.len() && out[e] != 10
            invariant
                pos <= e <= out@.len(),
                forall|m: int| pos <= m < e ==> out@[m] != 10,
            decreases out@.len() - e,
        {
            e = e + 1;
        }
        let ghost rest = out@.skip(pos as int);
        proof {
            assert(forall|m: int| 0 <= m < e - pos ==> rest[m] == out@[m + pos]);
            if e < out.len() {
                assert(rest[e - pos] == out@[e as int]);
            }
            lemma_first_nl_is(rest, e - pos);
        }
        let line = vstd::slice::slice_subrange(out, pos, e);
        proof {
            assert(line@ =~= rest.take(e - pos));
            if e - pos == rest.len() {
                assert(line@ =~= rest);
            }
        }
        if has_listening(line) {
            match last_token_pid(line) {
                Some(p) => {
                    r.push(p);
                },
                None => {},
            }
        }
        proof {
            if e - pos < rest.len() {
                assert(rest.skip(e - pos + 1) =~= out@.skip(e + 1));
                assert(listening_pids(rest) == line_contrib(line@) + listening_pids(
                    out@.skip(e + 1),
                ));
            } else {
                assert(listening_pids(rest) == line_contrib(line@));
                assert(out@.skip(out@.len() as int) =~= Seq::<u8>::empty());
            }
        }
        if e < out.len() {
            pos = e + 1;
        } else {
            pos = out.len();
        }
    }
    proof {
        assert(out@.skip(out@.len() as int) =~= Seq::<u8>::empty());
        assert(r@ + Seq::<u32>::empty() =~= r@);
    }
    r
}

/// The process id named by the first line of the enumeration output, if any;
/// an empty output has no first line.
pub open spec fn first_line_pid(s: Seq<u8>) -> Option<u32> {
    if s.len() == 0 {
        None
    } else {
        parse_u32_spec(s.take(first_nl(s)))
    }
}

/// Extracts the process id from the first output line.
pub fn extract_first_pid(out: &[u8]) -> (r: Option<u32>)
    ensures
        r == first_line_pid(out@),
{
    if out.len() == 0 {
        return None;
    }
    let mut e: usize = 0;
    while e < out.len() && out[e] != 10
        invariant
            e <= out@.len(),
            forall|m: int| 0 <= m < e ==> out@[m] != 10,
        decreases out@.len() - e,
    {
        e = e + 1;
    }
    proof {
        lemma_first_nl_is(out@, e as int);
    }
    let line = vstd::slice::slice_subrange(out, 0, e);
    proof {
        assert(line@ =~= out@.take(e as int));
    }
    parse_u32_bytes(line)
}

/// Shapes the result of a kill-by-id command: the kill call's verdict when
/// the process exists, and the fixed error when it does not.
pub fn kill_process_outcome(found: Option<bool>) -> (r: Result<bool, String>)
    ensures
        match found {
            Some(k) => r == Ok::<bool, String>(k),
            None => r matches Err(m) && m@ == "Process not found"@,
        },
{
    match found {
        Some(k) => Ok(k),
        None => Err("Process not found".to_owned()),
    }
}

} // verus!
