//! Splitting sequences at a separator, as `str::split`, `str::split_once` and
//! line framing on a byte stream do.

use vstd::prelude::*;

verus! {

/// Index of the first occurrence of `x` in `s`.
pub open spec fn find_first<T>(s: Seq<T>, x: T) -> Option<nat>
    decreases s.len(),
{
    if s.len() == 0 {
        None
    } else if s[0] == x {
        Some(0)
    } else {
        match find_first(s.drop_first(), x) {
            Some(i) => Some(i + 1),
            None => None,
        }
    }
}

/// `find_first` is the least index holding `x`, or `None` when `x` is absent.
pub proof fn lemma_find_first<T>(s: Seq<T>, x: T)
    ensures
        match find_first(s, x) {
            Some(i) => i < s.len() && s[i as int] == x && forall|k: int|
                0 <= k < i ==> s[k] != x,
            None => forall|k: int| 0 <= k < s.len() ==> s[k] != x,
        },
    decreases s.len(),
{
    if s.len() > 0 && s[0] != x {
        let t = s.drop_first();
        lemma_find_first(t, x);
        match find_first(t, x) {
            Some(i) => {
                assert forall|k: int| 0 <= k < i + 1 implies s[k] != x by {
                    if k > 0 {
                        assert(s[k] == t[k - 1]);
                    }
                }
            },
            None => {
                assert forall|k: int| 0 <= k < s.len() implies s[k] != x by {
                    if k > 0 {
                        assert(s[k] == t[k - 1]);
                    }
                }
            },
        }
    }
}

/// The pieces of `s` between occurrences of `sep`, as `str::split` yields
/// them: one more piece than there are separators, empty pieces included.
pub open spec fn split_on<T>(s: Seq<T>, sep: T) -> Seq<Seq<T>>
    decreases s.len(),
{
    match find_first(s, sep) {
        None => seq![s],
        Some(i) => {
            proof {
                lemma_find_first(s, sep);
            }
            seq![s.take(i as int)] + split_on(s.skip(i + 1int), sep)
        },
    }
}

/// `s` cut at its first `sep`, as `str::split_once` does; the whole of `s`
/// and `None` when `sep` is absent.
pub open spec fn split_once<T>(s: Seq<T>, sep: T) -> (Seq<T>, Option<Seq<T>>) {
    match find_first(s, sep) {
        None => (s, None),
        Some(i) => (s.take(i as int), Some(s.skip(i + 1int))),
    }
}

pub proof fn lemma_split_on_nonempty<T>(s: Seq<T>, sep: T)
    ensures
        split_on(s, sep).len() >= 1,
    decreases s.len(),
{
    if let Some(i) = find_first(s, sep) {
        lemma_find_first(s, sep);
        lemma_split_on_nonempty(s.skip(i + 1int), sep);
    }
}

/// Splitting a concatenation: the complete pieces of `x` stay as they are,
/// and the unfinished last piece of `x` is continued by `y`.
pub proof fn lemma_split_on_concat<T>(x: Seq<T>, y: Seq<T>, sep: T)
    ensures
        split_on(x + y, sep) == split_on(x, sep).drop_last() + split_on(
            split_on(x, sep).last() + y,
            sep,
        ),
    decreases x.len(),
{
    lemma_find_first(x, sep);
    lemma_find_first(x + y, sep);
    match find_first(x, sep) {
        None => {
            assert(split_on(x, sep).drop_last() =~= Seq::<Seq<T>>::empty());
        },
        Some(i) => {
            let j = find_first(x + y, sep).unwrap();
            assert((x + y)[i as int] == x[i as int]);
            if j < i {
                assert((x + y)[j as int] == x[j as int]);
            }
            assert(j == i);
            let rest = x.skip(i + 1int);
            assert((x + y).skip(i + 1int) =~= rest + y);
            assert((x + y).take(i as int) =~= x.take(i as int));
            lemma_split_on_concat(rest, y, sep);
            lemma_split_on_nonempty(rest, sep);
            let head = seq![x.take(i as int)];
            assert(split_on(x, sep) == head + split_on(rest, sep));
            assert((head + split_on(rest, sep)).drop_last() =~= head + split_on(
                rest,
                sep,
            ).drop_last());
            assert((head + split_on(rest, sep)).last() == split_on(rest, sep).last());
            assert(split_on(x + y, sep) =~= head + split_on(rest + y, sep));
        },
    }
}

/// Characterises `find_first` on a suffix found by a scan.
pub proof fn lemma_find_first_at<T>(s: Seq<T>, x: T, n: int)
    requires
        0 <= n <= s.len(),
        forall|k: int| 0 <= k < n ==> s[k] != x,
        n == s.len() || s[n] == x,
    ensures
        n < s.len() ==> find_first(s, x) == Some(n as nat),
        n == s.len() ==> find_first(s, x) == None::<nat>,
{
    lemma_find_first(s, x);
    match find_first(s, x) {
        Some(i) => {
            if (i as int) < n {
                assert(s[i as int] != x);
            }
            if (i as int) > n && n < s.len() {
                assert(s[n] != x);
            }
        },
        None => {
            if n < s.len() {
                assert(s[n] != x);
            }
        },
    }
}

/// Position of the first `c` in `v` at or after `start`.
pub fn find_char_from(v: &Vec<char>, start: usize, c: char) -> (r: Option<usize>)
    requires
        start <= v@.len(),
    ensures
        match r {
            Some(i) => start <= i < v@.len() && find_first(v@.skip(start as int), c) == Some(
                (i - start) as nat,
            ),
            None => find_first(v@.skip(start as int), c) == None::<nat>,
        },
{
    let mut i = start;
    while i < v.len() && v[i] != c
        invariant
            start <= i <= v@.len(),
            forall|k: int| start <= k < i ==> v@[k] != c,
        decreases v@.len() - i,
    {
        i = i + 1;
    }
    let ghost s = v@.skip(start as int);
    proof {
        assert forall|k: int| 0 <= k < i - start implies s[k] != c by {
            assert(s[k] == v@[k + start]);
        }
        if i < v.len() {
            assert(s[i - start] == v@[i as int]);
        }
        lemma_find_first_at(s, c, i - start);
    }
    if i < v.len() {
        Some(i)
    } else {
        None
    }
}

/// Position of the first `b` in `v` at or after `start`.
pub fn find_byte_from(v: &Vec<u8>, start: usize, b: u8) -> (r: Option<usize>)
    requires
        start <= v@.len(),
    ensures
        match r {
            Some(i) => start <= i < v@.len() && find_first(v@.skip(start as int), b) == Some(
                (i - start) as nat,
            ),
            None => find_first(v@.skip(start as int), b) == None::<nat>,
        },
{
    let mut i = start;
    while i < v.len() && v[i] != b
        invariant
            start <= i <= v@.len(),
            forall|k: int| start <= k < i ==> v@[k] != b,
        decreases v@.len() - i,
    {
        i = i + 1;
    }
    let ghost s = v@.skip(start as int);
    proof {
        assert forall|k: int| 0 <= k < i - start implies s[k] != b by {
            assert(s[k] == v@[k + start]);
        }
        if i < v.len() {
            assert(s[i - start] == v@[i as int]);
        }
        lemma_find_first_at(s, b, i - start);
    }
    if i < v.len() {
        Some(i)
    } else {
        None
    }
}

/// The elements `v[from..to]` as a new vector.
pub fn copy_range<T: Copy>(v: &Vec<T>, from: usize, to: usize) -> (r: Vec<T>)
    requires
        from <= to <= v@.len(),
    ensures
        r@ == v@.subrange(from as int, to as int),
{
    let mut r: Vec<T> = Vec::new();
    let mut i = from;
    while i < to
        invariant
            from <= i <= to <= v@.len(),
            r@ == v@.subrange(from as int, i as int),
        decreases to - i,
    {
        r.push(v[i]);
        proof {
            assert(v@.subrange(from as int, i + 1) =~= v@.subrange(from as int, i as int).push(
                v@[i as int],
            ));
        }
        i = i + 1;
    }
    r
}

} // verus!
