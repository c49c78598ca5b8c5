//! Parsing of the rows-affected count out of a command-completion tag.
//!
//! The tag is a human-readable string ending in a count ("INSERT 0 3",
//! "UPDATE 5"). The count is the token after the last space; when that
//! token is absent, non-numeric or too large, the count is taken as 0 —
//! row-count reporting is best-effort and never fails an operation.

use vstd::prelude::*;

verus! {

/// The token after the last space: the suffix of `s` past its last `' '`
/// (all of `s` when it holds none).
pub open spec fn tail_after_last_space(s: Seq<char>) -> Seq<char>
    decreases s.len(),
{
    if s.len() == 0 {
        s
    } else if s[s.len() - 1] == ' ' {
        Seq::empty()
    } else {
        tail_after_last_space(s.drop_last()).push(s.last())
    }
}

/// True when `s` is one or more decimal digits.
pub open spec fn is_decimal(s: Seq<char>) -> bool {
    s.len() > 0 && forall|i: int| 0 <= i < s.len() ==> 48 <= #[trigger] (s[i] as u32) <= 57
}

/// The number a digit sequence denotes.
pub open spec fn decimal_value(s: Seq<char>) -> int
    decreases s.len(),
{
    if s.len() == 0 {
        0
    } else {
        decimal_value(s.drop_last()) * 10 + (s.last() as u32 - 48)
    }
}

/// The rows-affected count carried by a command-completion tag.
pub open spec fn spec_extract_row_affected(tag: Seq<char>) -> u64 {
    let t = tail_after_last_space(tag);
    if is_decimal(t) && decimal_value(t) <= u64::MAX {
        decimal_value(t) as u64
    } else {
        0u64
    }
}

proof fn lemma_tail_is_suffix(s: Seq<char>, k: int)
    requires
        0 <= k <= s.len(),
        forall|j: int| k <= j < s.len() ==> s[j] != ' ',
        k == 0 || s[k - 1] == ' ',
    ensures
        tail_after_last_space(s) == s.subrange(k, s.len() as int),
    decreases s.len(),
{
    if k == s.len() {
        if s.len() == 0 {
            assert(tail_after_last_space(s) =~= s.subrange(k, s.len() as int));
        } else {
            assert(s[s.len() - 1] == ' ');
            assert(tail_after_last_space(s) =~= s.subrange(k, s.len() as int));
        }
    } else {
        assert(s[s.len() - 1] != ' ');
        let d = s.drop_last();
        lemma_tail_is_suffix(d, k);
        assert(d.subrange(k, d.len() as int).push(s.last()) =~= s.subrange(k, s.len() as int));
    }
}

proof fn lemma_decimal_nonneg(s: Seq<char>)
    requires
        forall|i: int| 0 <= i < s.len() ==> 48 <= #[trigger] (s[i] as u32) <= 57,
    ensures
        decimal_value(s) >= 0,
    decreases s.len(),
{
    if s.len() > 0 {
        lemma_decimal_nonneg(s.drop_last());
    }
}

proof fn lemma_decimal_prefix_le(s: Seq<char>, k: int)
    requires
        0 <= k <= s.len(),
        forall|i: int| 0 <= i < s.len() ==> 48 <= #[trigger] (s[i] as u32) <= 57,
    ensures
        decimal_value(s.take(k)) <= decimal_value(s),
    decreases s.len() - k,
{
    if k == s.len() {
        assert(s.take(k) =~= s);
    } else {
        lemma_decimal_prefix_le(s, k + 1);
        let t1 = s.take(k + 1);
        assert(t1.drop_last() =~= s.take(k));
        assert(t1.last() == s[k]);
        lemma_decimal_nonneg(s.take(k));
    }
}

/// Extract the number of rows affected from a command-completion tag.
pub fn extract_row_affected(tag: &str) -> (n: u64)
    ensures
        n == spec_extract_row_affected(tag@),
{
    let len = tag.unicode_len();
    let mut start: usize = 0;
    let mut i: usize = 0;
    while i < len
        invariant
            i <= len,
            len == tag@.len(),
            start <= i,
            start == 0 || tag@[start - 1] == ' ',
            forall|j: int| start <= j < i ==> tag@[j] != ' ',
        decreases len - i,
    {
        if tag.get_char(i) == ' ' {
            start = i + 1;
        }
        i = i + 1;
    }
    proof {
        lemma_tail_is_suffix(tag@, start as int);
    }
    let ghost t = tag@.subrange(start as int, len as int);
    if start == len {
        proof {
            assert(!is_decimal(t));
        }
        return 0;
    }
    let mut acc: u64 = 0;
    let mut p: usize = start;
    while p < len
        invariant
            start <= p <= len,
            start < len,
            len == tag@.len(),
            t == tag@.subrange(start as int, len as int),
            t == tail_after_last_space(tag@),
            forall|j: int| start <= j < p ==> 48 <= #[trigger] (tag@[j] as u32) <= 57,
            acc as int == decimal_value(tag@.subrange(start as int, p as int)),
        decreases len - p,
    {
        let c = tag.get_char(p);
        let cv = c as u32;
        if cv < 48 || cv > 57 {
            proof {
                assert(t[p - start as int] == tag@[p as int]);
                assert(!is_decimal(t));
            }
            return 0;
        }
        let d = (cv - 48) as u64;
        let ghost prefix = tag@.subrange(start as int, p as int);
        let ghost prefix1 = tag@.subrange(start as int, p as int + 1);
        proof {
            assert(prefix1.drop_last() =~= prefix);
            assert(prefix1.last() == tag@[p as int]);
            assert(decimal_value(prefix1) == decimal_value(prefix) * 10 + (tag@[p as int] as u32
                - 48));
        }
        let next = match acc.checked_mul(10) {
            Some(x) => x.checked_add(d),
            None => None,
        };
        match next {
            Some(v) => {
                acc = v;
            },
            None => {
                proof {
                    assert(decimal_value(prefix1) > u64::MAX);
                    if is_decimal(t) {
                        lemma_decimal_prefix_le(t, p + 1 - start as int);
                        assert(t.take(p + 1 - start as int) =~= prefix1);
                        assert(decimal_value(t) > u64::MAX);
                    }
                    assert(spec_extract_row_affected(tag@) == 0);
                }
                return 0;
            },
        }
        p = p + 1;
    }
    proof {
        assert(t =~= tag@.subrange(start as int, len as int));
        assert(forall|j: int| 0 <= j < t.len() ==> 48 <= #[trigger] (t[j] as u32) <= 57);
        assert(is_decimal(t));
        assert(decimal_value(t) == acc as int);
    }
    acc
}

} // verus!
