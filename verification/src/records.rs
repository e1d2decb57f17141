//! Generic selection over stored records: filtering, first-match lookup and
//! removal, each stated over the records' views.
use vstd::prelude::*;

verus! {

/// A stored record: a value with a mathematical view and a copy operation
/// that preserves it.
pub trait Record: View + Sized {
    fn duplicate(&self) -> (r: Self)
        ensures
            r@ == self@;
}

/// The views of a sequence of records.
pub open spec fn views<T: View>(s: Seq<T>) -> Seq<T::V> {
    s.map_values(|t: T| t@)
}

/// `i` is the first position of `s` satisfying `p`.
pub open spec fn is_first_match<A>(s: Seq<A>, p: spec_fn(A) -> bool, i: int) -> bool {
    &&& 0 <= i < s.len()
    &&& p(s[i])
    &&& forall|k: int| 0 <= k < i ==> !p(s[k])
}

/// No position of `s` satisfies `p`.
pub open spec fn no_match<A>(s: Seq<A>, p: spec_fn(A) -> bool) -> bool {
    forall|k: int| 0 <= k < s.len() ==> !p(s[k])
}

/// One step of `Seq::filter` over a growing prefix.
pub proof fn lemma_filter_take_step<A>(s: Seq<A>, p: spec_fn(A) -> bool, i: int)
    requires
        0 <= i < s.len(),
    ensures
        s.take(i + 1).filter(p) == (if p(s[i]) {
            s.take(i).filter(p).push(s[i])
        } else {
            s.take(i).filter(p)
        }),
{
    reveal(Seq::filter);
    assert(s.take(i + 1).drop_last() =~= s.take(i));
    assert(s.take(i + 1).last() == s[i]);
}

/// Filtering a sequence all of whose elements fail `p` gives nothing.
pub proof fn lemma_filter_none<A>(s: Seq<A>, p: spec_fn(A) -> bool)
    requires
        no_match(s, p),
    ensures
        s.filter(p) =~= Seq::<A>::empty(),
    decreases s.len(),
{
    reveal(Seq::filter);
    if s.len() > 0 {
        lemma_filter_none(s.drop_last(), p);
    }
}

/// The elements of `v` whose views satisfy `p`, in their original order.
pub fn filter_records<T: Record>(
    v: &Vec<T>,
    f: impl Fn(&T) -> bool,
    Ghost(p): Ghost<spec_fn(T::V) -> bool>,
) -> (r: Vec<T>)
    requires
        forall|t: &T| #[trigger] f.requires((t,)),
        forall|t: &T, b: bool| f.ensures((t,), b) ==> b == p(t@),
    ensures
        views(r@) == views(v@).filter(p),
{
    let mut r: Vec<T> = Vec::new();
    let mut i: usize = 0;
    assert(views(v@).take(0).filter(p) =~= Seq::<T::V>::empty()) by {
        reveal(Seq::filter);
    }
    while i < v.len()
        invariant
            i <= v.len(),
            forall|t: &T| #[trigger] f.requires((t,)),
            forall|t: &T, b: bool| f.ensures((t,), b) ==> b == p(t@),
            views(r@) == views(v@).take(i as int).filter(p),
        decreases v.len() - i,
    {
        let keep = f(&v[i]);
        proof {
            lemma_filter_take_step(views(v@), p, i as int);
        }
        if keep {
            let c = v[i].duplicate();
            let ghost old_r = r@;
            r.push(c);
            assert(views(r@) =~= views(old_r).push(v@[i as int]@));
        }
        i = i + 1;
    }
    assert(views(v@).take(v.len() as int) =~= views(v@));
    r
}

/// The position of the first element of `v` whose view satisfies `p`.
pub fn position_record<T: View>(
    v: &Vec<T>,
    f: impl Fn(&T) -> bool,
    Ghost(p): Ghost<spec_fn(T::V) -> bool>,
) -> (r: Option<usize>)
    requires
        forall|t: &T| #[trigger] f.requires((t,)),
        forall|t: &T, b: bool| f.ensures((t,), b) ==> b == p(t@),
    ensures
        r matches Some(i) ==> is_first_match(views(v@), p, i as int),
        r is None ==> no_match(views(v@), p),
{
    let mut i: usize = 0;
    while i < v.len()
        invariant
            i <= v.len(),
            forall|t: &T| #[trigger] f.requires((t,)),
            forall|t: &T, b: bool| f.ensures((t,), b) ==> b == p(t@),
            forall|k: int| 0 <= k < i ==> !p(#[trigger] views(v@)[k]),
        decreases v.len() - i,
    {
        if f(&v[i]) {
            return Some(i);
        }
        i = i + 1;
    }
    None
}

} // verus!

verus! {

/// The views of a vector of strings.
pub open spec fn string_views(s: Seq<String>) -> Seq<Seq<char>> {
    s.map_values(|t: String| t@)
}

/// The view of an optional string.
pub open spec fn opt_string_view(o: Option<String>) -> Option<Seq<char>> {
    match o {
        Some(s) => Some(s@),
        None => None,
    }
}

/// A copy of an optional string.
pub fn duplicate_opt_string(o: &Option<String>) -> (r: Option<String>)
    ensures
        opt_string_view(r) == opt_string_view(*o),
{
    match o {
        Some(s) => Some(s.clone()),
        None => None,
    }
}

/// A copy of a vector of strings.
pub fn duplicate_strings(v: &Vec<String>) -> (r: Vec<String>)
    ensures
        string_views(r@) == string_views(v@),
{
    let mut r: Vec<String> = Vec::new();
    let mut i: usize = 0;
    while i < v.len()
        invariant
            i <= v.len(),
            string_views(r@) == string_views(v@).take(i as int),
        decreases v.len() - i,
    {
        let ghost old_r = r@;
        let c = v[i].clone();
        r.push(c);
        assert(string_views(r@) =~= string_views(old_r).push(v@[i as int]@));
        assert(string_views(v@).take(i + 1) =~= string_views(v@).take(i as int).push(v@[i as int]@));
        i = i + 1;
    }
    assert(string_views(v@).take(v.len() as int) =~= string_views(v@));
    r
}

/// A copy of a vector of records.
pub fn duplicate_all<T: Record>(v: &Vec<T>) -> (r: Vec<T>)
    ensures
        views(r@) == views(v@),
{
    let mut r: Vec<T> = Vec::new();
    let mut i: usize = 0;
    while i < v.len()
        invariant
            i <= v.len(),
            views(r@) == views(v@).take(i as int),
        decreases v.len() - i,
    {
        let c = v[i].duplicate();
        let ghost old_r = r@;
        r.push(c);
        assert(views(r@) =~= views(old_r).push(v@[i as int]@));
        assert(views(v@).take(i + 1) =~= views(v@).take(i as int).push(v@[i as int]@));
        i = i + 1;
    }
    assert(views(v@).take(v.len() as int) =~= views(v@));
    r
}

} // verus!

verus! {

/// The first position of `s` satisfying `p`, if any.
pub open spec fn first_match_index<A>(s: Seq<A>, p: spec_fn(A) -> bool) -> Option<int> {
    if exists|i: int| is_first_match(s, p, i) {
        Some(choose|i: int| is_first_match(s, p, i))
    } else {
        None
    }
}

pub proof fn lemma_first_match_index<A>(s: Seq<A>, p: spec_fn(A) -> bool, i: int)
    requires
        is_first_match(s, p, i),
    ensures
        first_match_index(s, p) == Some(i),
{
    let j = choose|j: int| is_first_match(s, p, j);
    assert(is_first_match(s, p, j));
    if j < i {
        assert(!p(s[j]));
    } else if i < j {
        assert(!p(s[i]));
    }
}

pub proof fn lemma_first_match_none<A>(s: Seq<A>, p: spec_fn(A) -> bool)
    requires
        no_match(s, p),
    ensures
        first_match_index(s, p) is None,
{
    if exists|i: int| is_first_match(s, p, i) {
        let j = choose|j: int| is_first_match(s, p, j);
        assert(p(s[j]));
    }
}

/// The position of the first element of `v` whose view satisfies `p`,
/// stated through [`first_match_index`].
pub fn find_first<T: View>(
    v: &Vec<T>,
    f: impl Fn(&T) -> bool,
    Ghost(p): Ghost<spec_fn(T::V) -> bool>,
) -> (r: Option<usize>)
    requires
        forall|t: &T| #[trigger] f.requires((t,)),
        forall|t: &T, b: bool| f.ensures((t,), b) ==> b == p(t@),
    ensures
        match r {
            Some(i) => first_match_index(views(v@), p) == Some(i as int) && i < v@.len(),
            None => first_match_index(views(v@), p) is None,
        },
{
    let r = position_record(v, f, Ghost(p));
    proof {
        match r {
            Some(i) => lemma_first_match_index(views(v@), p, i as int),
            None => lemma_first_match_none(views(v@), p),
        }
    }
    r
}

} // verus!
