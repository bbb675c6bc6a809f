use vstd::prelude::*;
use vstd::string::*;

verus! {

/// Position of the first `c` in `s` at or after `from`, or `s.len()` if there is none.
pub open spec fn index_of_from(s: Seq<char>, c: char, from: int) -> int
    decreases s.len() - from,
{
    if from < 0 || from >= s.len() {
        s.len() as int
    } else if s[from] == c {
        from
    } else {
        index_of_from(s, c, from + 1)
    }
}

/// The characters of `s`, one by one.
pub fn chars_of(s: &str) -> (r: Vec<char>)
    ensures
        r@ == s@,
{
    let n = s.unicode_len();
    let mut r: Vec<char> = Vec::new();
    let mut i: usize = 0;
    while i < n
        invariant
            n == s@.len(),
            i <= n,
            r@ == s@.take(i as int),
        decreases n - i,
    {
        r.push(s.get_char(i));
        i += 1;
        assert(r@ =~= s@.take(i as int));
    }
    assert(r@ =~= s@);
    r
}

/// Position of the first `c` in `s` at or after `from`, or `s.len()` if there is none.
pub fn find_char(s: &Vec<char>, c: char, from: usize) -> (r: usize)
    requires
        from <= s.len(),
    ensures
        r as int == index_of_from(s@, c, from as int),
        from <= r <= s.len(),
{
    let mut i = from;
    while i < s.len()
        invariant
            from <= i <= s.len(),
            index_of_from(s@, c, i as int) == index_of_from(s@, c, from as int),
        decreases s.len() - i,
    {
        if s[i] == c {
            return i;
        }
        i += 1;
    }
    i
}

/// Whether `p` occurs in `s` starting at position `at`.
pub open spec fn occurs_at(s: Seq<char>, p: Seq<char>, at: int) -> bool {
    0 <= at && at + p.len() <= s.len() && s.subrange(at, at + p.len()) == p
}

/// `s` with every leading copy of a non-empty `p` removed, one after another.
pub open spec fn trim_start_all(s: Seq<char>, p: Seq<char>) -> Seq<char>
    decreases s.len(),
{
    if p.len() > 0 && occurs_at(s, p, 0) {
        trim_start_all(s.skip(p.len() as int), p)
    } else {
        s
    }
}

/// `s` with every trailing copy of a non-empty `p` removed, one after another.
pub open spec fn trim_end_all(s: Seq<char>, p: Seq<char>) -> Seq<char>
    decreases s.len(),
{
    if p.len() > 0 && occurs_at(s, p, s.len() - p.len()) {
        trim_end_all(s.take(s.len() - p.len()), p)
    } else {
        s
    }
}

/// Whether `p` occurs in `s` starting at position `at`.
pub fn matches_at(s: &Vec<char>, p: &Vec<char>, at: usize) -> (r: bool)
    requires
        at <= s.len(),
    ensures
        r == occurs_at(s@, p@, at as int),
{
    if p.len() > s.len() - at {
        return false;
    }
    let mut k: usize = 0;
    while k < p.len()
        invariant
            at + p.len() <= s.len(),
            k <= p.len(),
            forall|m: int| 0 <= m < k ==> s@[at + m] == p@[m],
        decreases p.len() - k,
    {
        if s[at + k] != p[k] {
            assert(s@.subrange(at as int, at + p.len())[k as int] != p@[k as int]);
            return false;
        }
        k += 1;
    }
    assert(s@.subrange(at as int, at + p.len()) =~= p@);
    true
}

/// Removes every leading copy of `pattern` from `s`, as `str::trim_start_matches` does.
pub fn trim_start_matches_all(s: &str, pattern: &str) -> (r: String)
    ensures
        r@ == trim_start_all(s@, pattern@),
{
    let cs = chars_of(s);
    let ps = chars_of(pattern);
    let mut lo: usize = 0;
    assert(s@.skip(0) =~= s@);
    while ps.len() > 0 && matches_at(&cs, &ps, lo)
        invariant
            lo <= cs.len(),
            cs@ == s@,
            ps@ == pattern@,
            trim_start_all(s@.skip(lo as int), pattern@) == trim_start_all(s@, pattern@),
        decreases cs.len() - lo,
    {
        proof {
            let t = s@.skip(lo as int);
            assert(t.subrange(0, ps@.len() as int) =~= s@.subrange(lo as int, lo + ps@.len()));
            assert(t.skip(ps@.len() as int) =~= s@.skip(lo + ps@.len()));
        }
        lo += ps.len();
    }
    proof {
        let t = s@.skip(lo as int);
        if ps@.len() > 0 && occurs_at(t, ps@, 0) {
            assert(t.subrange(0, ps@.len() as int) =~= s@.subrange(lo as int, lo + ps@.len()));
        }
        assert(s@.subrange(lo as int, s@.len() as int) =~= t);
    }
    s.substring_char(lo, cs.len()).to_owned()
}

/// Removes every trailing copy of `pattern` from `s`, as `str::trim_end_matches` does.
pub fn trim_end_matches_all(s: &str, pattern: &str) -> (r: String)
    ensures
        r@ == trim_end_all(s@, pattern@),
{
    let cs = chars_of(s);
    let ps = chars_of(pattern);
    let mut hi: usize = cs.len();
    assert(s@.take(hi as int) =~= s@);
    while ps.len() > 0 && ps.len() <= hi && matches_at(&cs, &ps, hi - ps.len())
        invariant
            hi <= cs.len(),
            cs@ == s@,
            ps@ == pattern@,
            trim_end_all(s@.take(hi as int), pattern@) == trim_end_all(s@, pattern@),
        decreases hi,
    {
        proof {
            let t = s@.take(hi as int);
            let k = hi - ps@.len();
            assert(t.subrange(k, k + ps@.len()) =~= s@.subrange(k, k + ps@.len()));
            assert(t.take(k) =~= s@.take(k));
        }
        hi -= ps.len();
    }
    proof {
        let t = s@.take(hi as int);
        if ps@.len() > 0 && occurs_at(t, ps@, t.len() - ps@.len()) {
            let k = hi - ps@.len();
            assert(t.subrange(k, k + ps@.len()) =~= s@.subrange(k, k + ps@.len()));
        }
        assert(s@.subrange(0, hi as int) =~= t);
    }
    s.substring_char(0, hi).to_owned()
}

} // verus!
