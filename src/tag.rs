//! The row count that a command-complete tag reports (`INSERT 0 5`, `SELECT 3`).
use vstd::prelude::*;

verus! {

/// The characters after the last space of `s` (all of `s` if it has none).
pub open spec fn last_word(s: Seq<char>) -> Seq<char>
    decreases s.len(),
{
    if s.len() == 0 {
        s
    } else if s.last() == ' ' {
        Seq::empty()
    } else {
        last_word(s.drop_last()).push(s.last())
    }
}

pub open spec fn is_digit(c: char) -> bool {
    48 <= (c as u32) && (c as u32) <= 57
}

pub open spec fn all_digits(w: Seq<char>) -> bool {
    forall|i: int| 0 <= i < w.len() ==> is_digit(#[trigger] w[i])
}

/// The number that the decimal digits `w` spell.
pub open spec fn digits_value(w: Seq<char>) -> int
    decreases w.len(),
{
    if w.len() == 0 {
        0
    } else {
        digits_value(w.drop_last()) * 10 + ((w.last() as u32) as int - 48)
    }
}

/// The row count of a command tag: its last word read as a decimal `u64`,
/// or 0 where that word is empty, not all digits, or too large.
pub open spec fn tag_rows(tag: Seq<char>) -> u64 {
    let w = last_word(tag);
    if w.len() > 0 && all_digits(w) && digits_value(w) <= u64::MAX {
        digits_value(w) as u64
    } else {
        0
    }
}

proof fn lemma_last_word(s: Seq<char>, start: int)
    requires
        0 <= start <= s.len(),
        start == 0 || s[start - 1] == ' ',
        forall|i: int| start <= i < s.len() ==> s[i] != ' ',
    ensures
        last_word(s) =~= s.subrange(start, s.len() as int),
    decreases s.len(),
{
    if s.len() > 0 && start < s.len() {
        lemma_last_word(s.drop_last(), start);
        assert(s.drop_last().subrange(start, s.len() - 1).push(s.last())
            =~= s.subrange(start, s.len() as int));
    }
}

proof fn lemma_digits_prefix(w: Seq<char>, k: int)
    requires
        all_digits(w),
        0 <= k <= w.len(),
    ensures
        0 <= digits_value(w.take(k)) <= digits_value(w),
    decreases w.len(),
{
    if k < w.len() {
        let p = w.drop_last();
        assert(all_digits(p)) by {
            assert forall|i: int| 0 <= i < p.len() implies is_digit(#[trigger] p[i]) by {
                assert(p[i] == w[i]);
            }
        }
        lemma_digits_prefix(p, k);
        lemma_digits_prefix(p, p.len() as int);
        assert(p.take(k) =~= w.take(k));
        assert(p.take(p.len() as int) =~= p);
        assert(is_digit(w[w.len() - 1]));
    } else {
        assert(w.take(k) =~= w);
        if w.len() > 0 {
            let p = w.drop_last();
            assert(all_digits(p)) by {
                assert forall|i: int| 0 <= i < p.len() implies is_digit(#[trigger] p[i]) by {
                    assert(p[i] == w[i]);
                }
            }
            lemma_digits_prefix(p, p.len() as int);
            assert(p.take(p.len() as int) =~= p);
            assert(is_digit(w[w.len() - 1]));
        }
    }
}

/// Reads the row count from a command tag.
pub fn rows_affected(tag: &str) -> (r: u64)
    ensures
        r == tag_rows(tag@),
{
    let n = tag.unicode_len();
    let mut start: usize = n;
    while start > 0 && tag.get_char(start - 1) != ' '
        invariant
            0 <= start <= n,
            n == tag@.len(),
            forall|i: int| start <= i < n ==> tag@[i] != ' ',
        decreases start,
    {
        start = start - 1;
    }
    proof {
        lemma_last_word(tag@, start as int);
    }
    let ghost w = tag@.subrange(start as int, n as int);
    if start == n {
        return 0;
    }
    let mut acc: u64 = 0;
    let mut i: usize = start;
    while i < n
        invariant
            start <= i <= n,
            n == tag@.len(),
            w == tag@.subrange(start as int, n as int),
            last_word(tag@) == w,
            all_digits(w.take(i - start)),
            acc as int == digits_value(w.take(i - start)),
        decreases n - i,
    {
        let c = tag.get_char(i);
        let d = c as u32;
        if d < 48 || d > 57 {
            proof {
                assert(!is_digit(w[i - start]));
            }
            return 0;
        }
        let dv = (d - 48) as u64;
        proof {
            assert(w.take(i - start + 1).drop_last() =~= w.take(i - start));
            assert(w.take(i - start + 1).last() == c);
        }
        if acc > (u64::MAX - dv) / 10 {
            proof {
                if all_digits(w) {
                    lemma_digits_prefix(w, i - start + 1);
                }
            }
            return 0;
        }
        acc = acc * 10 + dv;
        i = i + 1;
        proof {
            let t = w.take(i - start);
            assert forall|j: int| 0 <= j < t.len() implies is_digit(#[trigger] t[j]) by {
                if j < t.len() - 1 {
                    assert(t[j] == w.take(i - start - 1)[j]);
                }
            }
        }
    }
    proof {
        assert(w.take(n - start) =~= w);
    }
    acc
}

} // verus!
