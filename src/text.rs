use vstd::prelude::*;

verus! {

/// The characters of `s`, in order.
pub fn chars_of(s: &str) -> (r: Vec<char>)
    ensures
        r@ == s@,
{
    let mut r: Vec<char> = Vec::new();
    for c in it: s.chars()
        invariant
            r@ == it.seq().take(it.index() as int),
            it.seq() == s@,
    {
        r.push(c);
    }
    r
}

/// Whether `e` spells out exactly the word `w`.
pub fn is_word(e: &Vec<char>, w: &str) -> (r: bool)
    ensures
        r == (e@ == w@),
{
    let wc = chars_of(w);
    if e.len() != wc.len() {
        return false;
    }
    let mut i: usize = 0;
    while i < e.len()
        invariant
            e.len() == wc.len(),
            wc@ == w@,
            0 <= i <= e.len(),
            forall|j: int| 0 <= j < i ==> e@[j] == wc@[j],
        decreases e.len() - i,
    {
        if e[i] != wc[i] {
            return false;
        }
        i = i + 1;
    }
    assert(e@ =~= w@);
    true
}

/// `i` is the position of the last '.' in `p`.
pub open spec fn is_last_dot(p: Seq<char>, i: int) -> bool {
    &&& 0 <= i < p.len()
    &&& p[i] == '.'
    &&& forall|j: int| i < j < p.len() ==> p[j] != '.'
}

/// `p` cut at its last '.': what stands before it and what stands after it.
pub open spec fn split_ext(p: Seq<char>) -> Option<(Seq<char>, Seq<char>)> {
    if exists|i: int| is_last_dot(p, i) {
        let i = choose|i: int| is_last_dot(p, i);
        Some((p.take(i), p.skip(i + 1)))
    } else {
        None
    }
}

/// The characters of `p` from `lo` up to `hi`.
pub fn copy_range(p: &Vec<char>, lo: usize, hi: usize) -> (r: Vec<char>)
    requires
        lo <= hi <= p.len(),
    ensures
        r@ == p@.subrange(lo as int, hi as int),
{
    let mut r: Vec<char> = Vec::new();
    let mut i: usize = lo;
    while i < hi
        invariant
            lo <= i <= hi <= p.len(),
            r@ == p@.subrange(lo as int, i as int),
        decreases hi - i,
    {
        r.push(p[i]);
        i = i + 1;
    }
    r
}

/// Cuts `p` at its last '.'.
pub fn split_at_last_dot(p: &Vec<char>) -> (r: Option<(Vec<char>, Vec<char>)>)
    ensures
        match split_ext(p@) {
            None => r is None,
            Some((stem, ext)) => r matches Some((a, b)) && a@ == stem && b@ == ext,
        },
{
    let mut i: usize = p.len();
    while i > 0
        invariant
            i <= p.len(),
            forall|j: int| i <= j < p.len() ==> p@[j] != '.',
        decreases i,
    {
        if p[i - 1] == '.' {
            let k: usize = i - 1;
            assert(is_last_dot(p@, k as int));
            assert forall|m: int| is_last_dot(p@, m) implies m == k by {
                if m < k {
                    assert(p@[k as int] != '.');
                }
            }
            return Some((copy_range(p, 0, k), copy_range(p, k + 1, p.len())));
        }
        i = i - 1;
    }
    assert(!exists|m: int| is_last_dot(p@, m));
    None
}

} // verus!
