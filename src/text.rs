use vstd::prelude::*;

verus! {

/// `q` occurs in `t` starting at position `k`.
pub open spec fn occurs_at(t: Seq<char>, q: Seq<char>, k: int) -> bool {
    &&& 0 <= k
    &&& k + q.len() <= t.len()
    &&& t.subrange(k, k + q.len()) == q
}

/// `q` is a (case-sensitive) substring of `t`.
pub open spec fn contains_seq(t: Seq<char>, q: Seq<char>) -> bool {
    exists|k: int| occurs_at(t, q, k)
}

/// The characters of `s`, one per element.
pub fn chars_of(s: &str) -> (r: Vec<char>)
    ensures
        r@ == s@,
{
    let n = s.unicode_len();
    let mut r: Vec<char> = Vec::new();
    let mut i: usize = 0;
    while i < n
        invariant
            n == s@.len(),
            i <= n,
            r@ == s@.subrange(0, i as int),
        decreases n - i,
    {
        r.push(s.get_char(i));
        i = i + 1;
    }
    assert(r@ == s@);
    r
}

/// Does `q` occur in `t` at position `k`?
pub(crate) fn occurs_at_exec(t: &Vec<char>, q: &Vec<char>, k: usize) -> (r: bool)
    requires
        k + q@.len() <= t@.len(),
    ensures
        r == occurs_at(t@, q@, k as int),
{
    let tl = t.len();
    let mut j: usize = 0;
    while j < q.len()
        invariant
            k + q@.len() <= t@.len(),
            t@.len() <= usize::MAX,
            j <= q@.len(),
            forall|m: int| 0 <= m < j ==> t@[k + m] == q@[m],
        decreases q@.len() - j,
    {
        if t[k + j] != q[j] {
            assert(t@.subrange(k as int, k + q@.len())[j as int] != q@[j as int]);
            return false;
        }
        j = j + 1;
    }
    assert(t@.subrange(k as int, k + q@.len()) =~= q@);
    true
}

/// Case-sensitive substring containment.
pub fn contains_chars(t: &Vec<char>, q: &Vec<char>) -> (r: bool)
    ensures
        r == contains_seq(t@, q@),
{
    if q.len() == 0 {
        assert(t@.subrange(0, 0) =~= q@);
        assert(occurs_at(t@, q@, 0));
        return true;
    }
    if q.len() > t.len() {
        return false;
    }
    let last = t.len() - q.len();
    let mut k: usize = 0;
    while k <= last
        invariant
            last + q@.len() == t@.len(),
            q@.len() > 0,
            t@.len() <= usize::MAX,
            forall|m: int| 0 <= m < k ==> !occurs_at(t@, q@, m),
        decreases last + 1 - k,
    {
        if occurs_at_exec(t, q, k) {
            return true;
        }
        k = k + 1;
    }
    false
}

/// The first position at or after `k` where `q` occurs in `t`.
pub open spec fn first_occurrence_from(t: Seq<char>, q: Seq<char>, k: int) -> Option<int>
    decreases t.len() + 1 - k,
{
    if k < 0 || k + q.len() > t.len() {
        None
    } else if occurs_at(t, q, k) {
        Some(k)
    } else {
        first_occurrence_from(t, q, k + 1)
    }
}

/// The first position where `q` occurs in `t`, if any.
pub fn find_chars(t: &Vec<char>, q: &Vec<char>) -> (r: Option<usize>)
    ensures
        r matches Some(k) ==> first_occurrence_from(t@, q@, 0) == Some(k as int),
        r is None ==> first_occurrence_from(t@, q@, 0) is None,
{
    if q.len() > t.len() {
        return None;
    }
    let last = t.len() - q.len();
    let mut k: usize = 0;
    while k <= last
        invariant
            last + q@.len() == t@.len(),
            t@.len() <= usize::MAX,
            first_occurrence_from(t@, q@, 0) == first_occurrence_from(t@, q@, k as int),
        decreases last + 1 - k,
    {
        if occurs_at_exec(t, q, k) {
            return Some(k);
        }
        if k == last {
            return None;
        }
        k = k + 1;
    }
    None
}

} // verus!
