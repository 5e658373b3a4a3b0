use vstd::prelude::*;

verus! {

/// A decimal digit.
pub open spec fn is_digit(c: char) -> bool {
    '0' <= c && c <= '9'
}

/// The value of a string of decimal digits.
pub open spec fn digits_value(s: Seq<char>) -> nat
    decreases s.len(),
{
    if s.len() == 0 {
        0
    } else {
        digits_value(s.drop_last()) * 10 + (s.last() as nat - '0' as nat) as nat
    }
}

/// The number that `s` writes in decimal: one digit or more, nothing else,
/// and a value that fits in `usize`.
pub open spec fn number_of(s: Seq<char>) -> Option<nat> {
    if s.len() > 0 && (forall|i: int| 0 <= i < s.len() ==> is_digit(#[trigger] s[i]))
        && digits_value(s) <= usize::MAX {
        Some(digits_value(s))
    } else {
        None
    }
}

/// `s` splits at position `i`, a comma, into two numbers.
pub open spec fn splits_at(s: Seq<char>, i: int) -> bool {
    &&& 0 <= i < s.len()
    &&& s[i] == ','
    &&& number_of(s.subrange(0, i)) is Some
    &&& number_of(s.subrange(i + 1, s.len() as int)) is Some
}

/// The two numbers that `s` writes as `a,b`, if it does.
pub open spec fn pair_of(s: Seq<char>) -> Option<(nat, nat)> {
    if exists|i: int| splits_at(s, i) {
        let i = choose|i: int| splits_at(s, i);
        Some(
            (
                number_of(s.subrange(0, i))->0,
                number_of(s.subrange(i + 1, s.len() as int))->0,
            ),
        )
    } else {
        None
    }
}

proof fn lemma_digits_value_grows(s: Seq<char>, k: int)
    requires
        0 <= k <= s.len(),
    ensures
        digits_value(s.subrange(0, k)) <= digits_value(s),
    decreases s.len() - k,
{
    if k < s.len() {
        lemma_digits_value_grows(s, k + 1);
        assert(s.subrange(0, k + 1).drop_last() =~= s.subrange(0, k));
    } else {
        assert(s.subrange(0, k) =~= s);
    }
}

/// The decimal number written in `s[lo..hi]`, if it is one that fits in
/// `usize`.
pub fn parse_number(s: &Vec<char>, lo: usize, hi: usize) -> (r: Option<usize>)
    requires
        lo <= hi <= s@.len(),
    ensures
        r == match number_of(s@.subrange(lo as int, hi as int)) {
            Some(n) => Some(n as usize),
            None => None::<usize>,
        },
        r matches Some(n) ==> number_of(s@.subrange(lo as int, hi as int)) == Some(n as nat),
{
    let ghost t = s@.subrange(lo as int, hi as int);
    if lo == hi {
        return None;
    }
    let mut v: usize = 0;
    let mut i: usize = lo;
    while i < hi
        invariant
            lo <= i <= hi <= s@.len(),
            t == s@.subrange(lo as int, hi as int),
            forall|k: int| 0 <= k < i - lo ==> is_digit(#[trigger] t[k]),
            v == digits_value(t.subrange(0, i - lo)),
        decreases hi - i,
    {
        let c = s[i];
        assert(c == t[i - lo]);
        if !('0' <= c && c <= '9') {
            return None;
        }
        let d: usize = (c as u32 - '0' as u32) as usize;
        assert(t.subrange(0, i + 1 - lo).drop_last() =~= t.subrange(0, i - lo));
        if v > (usize::MAX - d) / 10 {
            proof {
                lemma_digits_value_grows(t, i + 1 - lo);
            }
            return None;
        }
        v = v * 10 + d;
        i = i + 1;
    }
    assert(t.subrange(0, hi - lo) =~= t);
    Some(v)
}

/// The two numbers that `s` writes as `a,b`, if it does.
pub fn parse_pair(s: &Vec<char>) -> (r: Option<(usize, usize)>)
    ensures
        r == match pair_of(s@) {
            Some((a, b)) => Some((a as usize, b as usize)),
            None => None::<(usize, usize)>,
        },
        r matches Some((a, b)) ==> pair_of(s@) == Some((a as nat, b as nat)),
{
    let mut k: usize = 0;
    while k < s.len() && s[k] != ','
        invariant
            k <= s@.len(),
            forall|j: int| 0 <= j < k ==> #[trigger] s@[j] != ',',
        decreases s@.len() - k,
    {
        k = k + 1;
    }
    if k == s.len() {
        assert(!exists|i: int| splits_at(s@, i));
        return None;
    }
    let left = parse_number(s, 0, k);
    let right = parse_number(s, k + 1, s.len());
    proof {
        assert forall|i: int| #[trigger] splits_at(s@, i) implies i == k by {
            if i > k {
                assert(s@.subrange(0, i)[k as int] == ',');
            }
        }
    }
    match (left, right) {
        (Some(a), Some(b)) => {
            assert(splits_at(s@, k as int));
            Some((a, b))
        },
        _ => {
            assert(!exists|i: int| splits_at(s@, i));
            None
        },
    }
}

} // verus!
