//! The Linux/Android backend's logic: parsing the one-line statm pseudo-file
//! and converting its page counts to byte counts.
//!
//! The line is space-separated unsigned decimal integers in units of pages;
//! the first is the total program (virtual) size and the second the resident
//! set size, and every later field is ignored. The runtime shell reads the
//! file and supplies the system page size; everything after that is verified
//! here.
use vstd::prelude::*;

use crate::info::{MemoryQueryError, ProcessMemoryInfo};

verus! {

/// An ASCII decimal digit.
pub open spec fn is_ascii_digit(b: u8) -> bool {
    48 <= b && b <= 57
}

/// Every byte of the token is a decimal digit.
pub open spec fn all_digits(t: Seq<u8>) -> bool {
    forall|i: int| 0 <= i < t.len() ==> is_ascii_digit(#[trigger] t[i])
}

/// The number a digit string denotes in decimal.
pub open spec fn digits_value(t: Seq<u8>) -> int
    recommends
        all_digits(t),
    decreases t.len(),
{
    if t.len() == 0 {
        0
    } else {
        digits_value(t.drop_last()) * 10 + (t.last() - 48)
    }
}

/// A non-empty all-digit token whose value fits in 64 bits.
pub open spec fn is_u64_token(t: Seq<u8>) -> bool {
    t.len() > 0 && all_digits(t) && digits_value(t) <= u64::MAX
}

/// Where the token starting at `from` ends: the first space at or after
/// `from`, or the end of the line.
pub open spec fn token_end(s: Seq<u8>, from: int) -> int
    recommends
        0 <= from <= s.len(),
    decreases s.len() - from,
{
    if from >= s.len() {
        s.len() as int
    } else if s[from] == 32 {
        from
    } else {
        token_end(s, from + 1)
    }
}

/// What the Linux/Android backend returns for a statm line and a page size.
///
/// An absent or empty token is a missing field; a non-empty token that is not
/// a decimal 64-bit integer, or whose byte value (pages times page size) does
/// not fit in 64 bits, is malformed. On success each reported field is
/// exactly its page count times the page size, and no peak or extended
/// metric is present.
pub open spec fn statm_result(s: Seq<u8>, page_size: u64) -> Result<
    ProcessMemoryInfo,
    MemoryQueryError,
> {
    let e1 = token_end(s, 0);
    let t1 = s.subrange(0, e1);
    if t1.len() == 0 {
        Err(MemoryQueryError::MissingVirtualSizeField)
    } else if !(is_u64_token(t1) && digits_value(t1) * page_size <= u64::MAX) {
        Err(MemoryQueryError::MalformedVirtualSizeField)
    } else if e1 >= s.len() {
        Err(MemoryQueryError::MissingResidentSizeField)
    } else {
        let e2 = token_end(s, e1 + 1);
        let t2 = s.subrange(e1 + 1, e2);
        if t2.len() == 0 {
            Err(MemoryQueryError::MissingResidentSizeField)
        } else if !(is_u64_token(t2) && digits_value(t2) * page_size <= u64::MAX) {
            Err(MemoryQueryError::MalformedResidentSizeField)
        } else {
            Ok(
                ProcessMemoryInfo {
                    resident_set_size: (digits_value(t2) * page_size) as u64,
                    resident_set_size_peak: None,
                    virtual_memory_size: (digits_value(t1) * page_size) as u64,
                    phys_footprint: None,
                    compressed: None,
                },
            )
        }
    }
}

/// The value of a digit string is never negative.
pub proof fn lemma_digits_value_nonneg(t: Seq<u8>)
    requires
        all_digits(t),
    ensures
        digits_value(t) >= 0,
    decreases t.len(),
{
    if t.len() > 0 {
        let dl = t.drop_last();
        assert forall|i: int| 0 <= i < dl.len() implies is_ascii_digit(#[trigger] dl[i]) by {
            assert(dl[i] == t[i]);
        }
        lemma_digits_value_nonneg(dl);
        assert(t.last() - 48 >= 0);
    }
}

/// Appending digits never shrinks the value: a prefix of a digit string
/// denotes at most what the whole string denotes.
pub proof fn lemma_digits_prefix_le(t: Seq<u8>, n: int)
    requires
        0 <= n <= t.len(),
        all_digits(t),
    ensures
        digits_value(t.subrange(0, n)) <= digits_value(t),
    decreases t.len() - n,
{
    if n == t.len() {
        assert(t.subrange(0, n) =~= t);
    } else {
        let dl = t.drop_last();
        assert forall|i: int| 0 <= i < dl.len() implies is_ascii_digit(#[trigger] dl[i]) by {
            assert(dl[i] == t[i]);
        }
        lemma_digits_prefix_le(dl, n);
        assert(dl.subrange(0, n) =~= t.subrange(0, n));
        lemma_digits_value_nonneg(dl);
        assert(t.last() - 48 >= 0);
        assert(digits_value(t) == digits_value(dl) * 10 + (t.last() - 48));
        assert(digits_value(dl) * 10 >= digits_value(dl));
    }
}

/// Bounds and meaning of `token_end`: it never passes the end of the line,
/// nothing before it (from `from` on) is a space, and it stops on a space
/// when one exists.
pub proof fn lemma_token_end(s: Seq<u8>, from: int)
    requires
        0 <= from <= s.len(),
    ensures
        from <= token_end(s, from) <= s.len(),
        forall|i: int| from <= i < token_end(s, from) ==> s[i] != 32,
        token_end(s, from) < s.len() ==> s[token_end(s, from)] == 32,
    decreases s.len() - from,
{
    if from < s.len() && s[from] != 32 {
        lemma_token_end(s, from + 1);
    }
}

/// Scans for the end of the token that starts at `from`.
fn token_end_at(s: &[u8], from: usize) -> (r: usize)
    requires
        from <= s@.len(),
    ensures
        r == token_end(s@, from as int),
        from <= r <= s@.len(),
{
    let mut i: usize = from;
    while i < s.len()
        invariant
            from <= i <= s@.len(),
            token_end(s@, from as int) == token_end(s@, i as int),
        decreases s@.len() - i,
    {
        if s[i] == 32 {
            assert(token_end(s@, i as int) == i);
            return i;
        }
        assert(token_end(s@, i as int) == token_end(s@, i + 1));
        i = i + 1;
    }
    assert(token_end(s@, i as int) == i as int);
    i
}

/// Parses `s[start..end]` as an unsigned decimal 64-bit integer: `Some`
/// exactly when the range is a non-empty digit string whose value fits.
fn parse_u64_token(s: &[u8], start: usize, end: usize) -> (r: Option<u64>)
    requires
        start <= end <= s@.len(),
    ensures
        match r {
            Some(v) => is_u64_token(s@.subrange(start as int, end as int)) && v == digits_value(
                s@.subrange(start as int, end as int),
            ),
            None => !is_u64_token(s@.subrange(start as int, end as int)),
        },
{
    if start == end {
        return None;
    }
    let mut acc: u64 = 0;
    let mut i: usize = start;
    while i < end
        invariant
            start <= i <= end <= s@.len(),
            start < end,
            all_digits(s@.subrange(start as int, i as int)),
            acc == digits_value(s@.subrange(start as int, i as int)),
        decreases end - i,
    {
        let b: u8 = s[i];
        let ghost t = s@.subrange(start as int, end as int);
        let ghost pre = s@.subrange(start as int, i as int);
        let ghost cur = s@.subrange(start as int, i + 1);
        assert(cur.drop_last() =~= pre);
        assert(cur.last() == s@[i as int]);
        if !(48 <= b && b <= 57) {
            assert(t[i - start] == s@[i as int]);
            assert(!all_digits(t));
            return None;
        }
        let d: u64 = (b - 48) as u64;
        assert(digits_value(cur) == digits_value(pre) * 10 + (s@[i as int] - 48));
        let next: Option<u64> = match acc.checked_mul(10) {
            Some(m) => m.checked_add(d),
            None => None,
        };
        match next {
            Some(v) => {
                acc = v;
            },
            None => {
                assert(acc * 10 + d > u64::MAX);
                proof {
                    if all_digits(t) {
                        assert(t.subrange(0, i + 1 - start) =~= cur);
                        lemma_digits_prefix_le(t, i + 1 - start);
                    }
                }
                return None;
            },
        }
        i = i + 1;
    }
    assert(s@.subrange(start as int, i as int) =~= s@.subrange(start as int, end as int));
    Some(acc)
}

/// Parses a statm line and converts its first two fields from pages to
/// bytes: the whole Linux/Android query apart from reading the file and
/// asking the OS for the page size.
pub fn linux_memory_info(statm: &[u8], page_size: u64) -> (r: Result<
    ProcessMemoryInfo,
    MemoryQueryError,
>)
    ensures
        r == statm_result(statm@, page_size),
{
    proof {
        lemma_token_end(statm@, 0);
    }
    let e1 = token_end_at(statm, 0);
    if e1 == 0 {
        return Err(MemoryQueryError::MissingVirtualSizeField);
    }
    let vm_pages: u64 = match parse_u64_token(statm, 0, e1) {
        Some(v) => v,
        None => {
            return Err(MemoryQueryError::MalformedVirtualSizeField);
        },
    };
    let vm_bytes: u64 = match vm_pages.checked_mul(page_size) {
        Some(v) => v,
        None => {
            return Err(MemoryQueryError::MalformedVirtualSizeField);
        },
    };
    if e1 == statm.len() {
        return Err(MemoryQueryError::MissingResidentSizeField);
    }
    proof {
        lemma_token_end(statm@, e1 + 1);
    }
    let e2 = token_end_at(statm, e1 + 1);
    if e2 == e1 + 1 {
        return Err(MemoryQueryError::MissingResidentSizeField);
    }
    let rss_pages: u64 = match parse_u64_token(statm, e1 + 1, e2) {
        Some(v) => v,
        None => {
            return Err(MemoryQueryError::MalformedResidentSizeField);
        },
    };
    let rss_bytes: u64 = match rss_pages.checked_mul(page_size) {
        Some(v) => v,
        None => {
            return Err(MemoryQueryError::MalformedResidentSizeField);
        },
    };
    Ok(
        ProcessMemoryInfo {
            resident_set_size: rss_bytes,
            resident_set_size_peak: None,
            virtual_memory_size: vm_bytes,
            phys_footprint: None,
            compressed: None,
        },
    )
}

/// No wraparound in page-to-byte conversion: a successful parse reports, for
/// each of the two fields, exactly the parsed page count times the page size
/// as a mathematical product; a product that does not fit in 64 bits is
/// rejected rather than wrapped.
pub proof fn lemma_conversion_exact(s: Seq<u8>, page_size: u64)
    ensures
        match statm_result(s, page_size) {
            Ok(info) => {
                let t1 = s.subrange(0, token_end(s, 0));
                let t2 = s.subrange(token_end(s, 0) + 1, token_end(s, token_end(s, 0) + 1));
                &&& info.virtual_memory_size == digits_value(t1) * page_size
                &&& info.resident_set_size == digits_value(t2) * page_size
                &&& digits_value(t1) * page_size <= u64::MAX
                &&& digits_value(t2) * page_size <= u64::MAX
            },
            Err(_) => true,
        },
{
    if statm_result(s, page_size) is Ok {
        let t1 = s.subrange(0, token_end(s, 0));
        let t2 = s.subrange(token_end(s, 0) + 1, token_end(s, token_end(s, 0) + 1));
        lemma_digits_value_nonneg(t1);
        lemma_digits_value_nonneg(t2);
        assert(digits_value(t1) * page_size >= 0) by (nonlinear_arith)
            requires
                digits_value(t1) >= 0,
                page_size >= 0,
        ;
        assert(digits_value(t2) * page_size >= 0) by (nonlinear_arith)
            requires
                digits_value(t2) >= 0,
                page_size >= 0,
        ;
    }
}

} // verus!
