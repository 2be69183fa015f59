//! Character-level text helpers: splitting on a separator, suffix tests and
//! building owned strings, each stated over `Seq<char>`.
use vstd::prelude::*;

verus! {

broadcast use vstd::string::group_string_axioms;

/// The segments of `s` between occurrences of `sep`, as `str::split` yields
/// them: one more segment than there are separators, empty ones included.
pub open spec fn split(s: Seq<char>, sep: char) -> Seq<Seq<char>>
    decreases s.len(),
{
    if s.len() == 0 {
        seq![Seq::<char>::empty()]
    } else {
        let init = split(s.drop_last(), sep);
        if s.last() == sep {
            init.push(Seq::<char>::empty())
        } else {
            init.update(init.len() - 1, init.last().push(s.last()))
        }
    }
}

/// The last segment that is not empty, if any: what `rsplit(..).find(|s| !s.is_empty())`
/// gives back.
pub open spec fn last_nonempty(segments: Seq<Seq<char>>) -> Option<Seq<char>>
    decreases segments.len(),
{
    if segments.len() == 0 {
        None
    } else if segments.last().len() > 0 {
        Some(segments.last())
    } else {
        last_nonempty(segments.drop_last())
    }
}

/// `s` ends with `suffix`.
pub open spec fn has_suffix(s: Seq<char>, suffix: Seq<char>) -> bool {
    suffix.len() <= s.len() && s.subrange(s.len() - suffix.len(), s.len() as int) == suffix
}

/// The view of an optional owned string.
pub open spec fn opt_view(o: Option<String>) -> Option<Seq<char>> {
    match o {
        Some(s) => Some(s@),
        None => None,
    }
}

pub proof fn lemma_split_nonempty(s: Seq<char>, sep: char)
    ensures
        split(s, sep).len() >= 1,
    decreases s.len(),
{
    if s.len() > 0 {
        lemma_split_nonempty(s.drop_last(), sep);
    }
}

/// The characters of `s`, in order.
pub fn chars_of(s: &str) -> (v: Vec<char>)
    ensures
        v@ == s@,
{
    let mut v: Vec<char> = Vec::new();
    for c in it: s.chars()
        invariant
            v@ == it.seq().take(it.index() as int),
    {
        v.push(c);
    }
    v
}

/// The bounds, as character positions, of the segments of `chars` between
/// occurrences of `sep`.
pub fn split_bounds(chars: &Vec<char>, sep: char) -> (bounds: Vec<(usize, usize)>)
    ensures
        bounds.len() == split(chars@, sep).len(),
        forall|k: int|
            #![trigger bounds@[k]]
            0 <= k < bounds.len() ==> {
                &&& bounds@[k].0 <= bounds@[k].1 <= chars.len()
                &&& chars@.subrange(bounds[k].0 as int, bounds[k].1 as int) == split(
                    chars@,
                    sep,
                )[k]
            },
{
    let n = chars.len();
    let mut bounds: Vec<(usize, usize)> = Vec::new();
    let mut start: usize = 0;
    let mut i: usize = 0;
    proof {
        assert(chars@.take(0) =~= Seq::<char>::empty());
    }
    while i < n
        invariant
            n == chars.len(),
            start <= i <= n,
            bounds.len() + 1 == split(chars@.take(i as int), sep).len(),
            forall|k: int|
                #![trigger bounds@[k]]
                0 <= k < bounds.len() ==> {
                    &&& bounds@[k].0 <= bounds@[k].1 <= i
                    &&& chars@.subrange(bounds[k].0 as int, bounds[k].1 as int) == split(
                        chars@.take(i as int),
                        sep,
                    )[k]
                },
            chars@.subrange(start as int, i as int) == split(chars@.take(i as int), sep).last(),
        decreases n - i,
    {
        let ghost prev = split(chars@.take(i as int), sep);
        proof {
            assert(chars@.take(i + 1).drop_last() =~= chars@.take(i as int));
            assert(chars@.take(i + 1).last() == chars@[i as int]);
            lemma_split_nonempty(chars@.take(i as int), sep);
        }
        let ghost next = split(chars@.take(i + 1), sep);
        if chars[i] == sep {
            proof {
                assert(next == prev.push(Seq::<char>::empty()));
                assert(forall|k: int| 0 <= k < prev.len() ==> next[k] == prev[k]);
            }
            let ghost old_bounds = bounds@;
            bounds.push((start, i));
            start = i + 1;
            proof {
                assert forall|k: int| #![trigger bounds@[k]] 0 <= k < bounds.len() implies {
                    &&& bounds@[k].0 <= bounds@[k].1 <= i + 1
                    &&& chars@.subrange(bounds[k].0 as int, bounds[k].1 as int) == next[k]
                } by {
                    if k < old_bounds.len() {
                        assert(bounds[k] == old_bounds[k]);
                    }
                }
                assert(chars@.subrange(start as int, (i + 1) as int) =~= Seq::<char>::empty());
            }
        } else {
            proof {
                assert(chars@.subrange(start as int, (i + 1) as int) =~= chars@.subrange(
                    start as int,
                    i as int,
                ).push(chars@[i as int]));
                assert forall|k: int| #![trigger bounds@[k]] 0 <= k < bounds.len() implies {
                    &&& bounds@[k].0 <= bounds@[k].1 <= i + 1
                    &&& chars@.subrange(bounds[k].0 as int, bounds[k].1 as int) == next[k]
                } by {
                    assert(next[k] == prev[k]);
                }
            }
        }
        i = i + 1;
    }
    bounds.push((start, n));
    proof {
        assert(chars@.take(n as int) =~= chars@);
    }
    bounds
}

/// An owned copy of the characters of `s` from position `from` up to `to`.
pub fn substring(s: &str, from: usize, to: usize) -> (r: String)
    requires
        from <= to <= s@.len(),
    ensures
        r@ == s@.subrange(from as int, to as int),
{
    String::from_str(s.substring_char(from, to))
}

/// An owned copy of `s`.
pub fn owned(s: &str) -> (r: String)
    ensures
        r@ == s@,
{
    String::from_str(s)
}

/// The text of `a` followed by `b`.
pub fn concat2(a: &str, b: &str) -> (r: String)
    ensures
        r@ == a@ + b@,
{
    let mut r = String::from_str(a);
    r.append(b);
    r
}

/// The text of `a`, `b` and `c` in turn.
pub fn concat3(a: &str, b: &str, c: &str) -> (r: String)
    ensures
        r@ == a@ + b@ + c@,
{
    let mut r = String::from_str(a);
    r.append(b);
    r.append(c);
    r
}

/// The text of `a`, `b`, `c`, `d` and `e` in turn.
pub fn concat5(a: &str, b: &str, c: &str, d: &str, e: &str) -> (r: String)
    ensures
        r@ == a@ + b@ + c@ + d@ + e@,
{
    let mut r = String::from_str(a);
    r.append(b);
    r.append(c);
    r.append(d);
    r.append(e);
    r
}

/// Whether `chars` ends with the characters of `suffix`.
pub fn ends_with(chars: &Vec<char>, suffix: &str) -> (b: bool)
    ensures
        b == has_suffix(chars@, suffix@),
{
    let tail = chars_of(suffix);
    let n = chars.len();
    let m = tail.len();
    if m > n {
        return false;
    }
    let offset = n - m;
    let mut j: usize = 0;
    while j < m
        invariant
            m == tail.len(),
            tail@ == suffix@,
            n == chars.len(),
            offset == n - m,
            m <= n,
            j <= m,
            forall|k: int| 0 <= k < j ==> chars@[offset + k] == tail@[k],
        decreases m - j,
    {
        if chars[offset + j] != tail[j] {
            proof {
                assert(chars@.subrange(offset as int, n as int)[j as int] != tail@[j as int]);
                assert(chars@.subrange(offset as int, n as int) != suffix@);
            }
            return false;
        }
        j = j + 1;
    }
    proof {
        assert(chars@.subrange(offset as int, n as int) =~= tail@);
    }
    true
}

/// The last segment of `s` between occurrences of `sep` that is not empty.
pub fn last_nonempty_segment(s: &str, sep: char) -> (r: Option<String>)
    ensures
        opt_view(r) == last_nonempty(split(s@, sep)),
{
    let chars = chars_of(s);
    let bounds = split_bounds(&chars, sep);
    let ghost segs = split(s@, sep);
    let mut k: usize = bounds.len();
    proof {
        assert(segs.take(k as int) =~= segs);
    }
    while k > 0
        invariant
            k <= bounds.len(),
            bounds.len() == segs.len(),
            segs == split(s@, sep),
            chars@ == s@,
            forall|j: int|
                #![trigger bounds@[j]]
                0 <= j < bounds.len() ==> {
                    &&& bounds@[j].0 <= bounds@[j].1 <= chars.len()
                    &&& chars@.subrange(bounds[j].0 as int, bounds[j].1 as int) == segs[j]
                },
            last_nonempty(segs) == last_nonempty(segs.take(k as int)),
        decreases k,
    {
        let (from, to) = bounds[k - 1];
        proof {
            assert(segs.take(k as int).last() == segs[k - 1]);
            assert(segs.take(k as int).drop_last() =~= segs.take(k - 1));
        }
        if from < to {
            return Some(substring(s, from, to));
        }
        k = k - 1;
    }
    None
}

} // verus!
