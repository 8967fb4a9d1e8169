//! Small helpers over character sequences.
use vstd::prelude::*;

verus! {

/// `pat` stands in `a` starting at index `at`.
pub open spec fn occurs_at(a: Seq<char>, pat: Seq<char>, at: int) -> bool {
    0 <= at && at + pat.len() <= a.len() && a.subrange(at, at + pat.len()) == pat
}

/// Appends the characters of `s` to `out`.
pub fn push_chars(out: &mut Vec<char>, s: &str)
    ensures
        final(out)@ == old(out)@ + s@,
{
    let n = s.unicode_len();
    let mut i: usize = 0;
    while i < n
        invariant
            n == s@.len(),
            i <= n,
            out@ == old(out)@ + s@.subrange(0, i as int),
        decreases n - i,
    {
        let c = s.get_char(i);
        out.push(c);
        i += 1;
        assert(s@.subrange(0, i as int) == s@.subrange(0, i - 1 as int).push(c));
    }
    assert(s@.subrange(0, n as int) == s@);
}

/// The characters of `s`, one element each.
pub fn chars_of(s: &str) -> (r: Vec<char>)
    ensures
        r@ == s@,
{
    let mut r: Vec<char> = Vec::new();
    push_chars(&mut r, s);
    assert(r@ == Seq::<char>::empty() + s@);
    r
}

/// Whether `pat` stands in `a` starting at index `at`.
pub fn chars_occur_at(a: &Vec<char>, pat: &Vec<char>, at: usize) -> (r: bool)
    ensures
        r == occurs_at(a@, pat@, at as int),
{
    if at > a.len() || pat.len() > a.len() - at {
        return false;
    }
    let alen = a.len();
    let mut k: usize = 0;
    while k < pat.len()
        invariant
            alen == a@.len(),
            at + pat@.len() <= a@.len(),
            k <= pat@.len(),
            forall|m: int| 0 <= m < k ==> a@[at + m] == pat@[m],
        decreases pat@.len() - k,
    {
        if a[at + k] != pat[k] {
            assert(a@.subrange(at as int, at + pat@.len())[k as int] != pat@[k as int]);
            return false;
        }
        k += 1;
    }
    assert(a@.subrange(at as int, at + pat@.len()) =~= pat@);
    true
}

/// Whether `a` and `b` hold the same characters.
pub fn same_chars(a: &Vec<char>, b: &str) -> (r: bool)
    ensures
        r == (a@ == b@),
{
    let b = chars_of(b);
    if a.len() != b.len() {
        return false;
    }
    let r = chars_occur_at(a, &b, 0);
    assert(a@.subrange(0, b@.len() as int) =~= a@);
    r
}

} // verus!
