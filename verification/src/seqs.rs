//! Searching and filtering sequences.
use vstd::prelude::*;

verus! {

/// The first element of `s` for which `p` holds, if any.
pub open spec fn find_first<T>(s: Seq<T>, p: spec_fn(T) -> bool) -> Option<T>
    decreases s.len(),
{
    if s.len() == 0 {
        None
    } else if p(s[0]) {
        Some(s[0])
    } else {
        find_first(s.drop_first(), p)
    }
}

/// `find_first` gives the element at `i` where `p` holds at `i` and nowhere before.
pub proof fn find_first_at<T>(s: Seq<T>, p: spec_fn(T) -> bool, i: int)
    requires
        0 <= i < s.len(),
        p(s[i]),
        forall|j: int| 0 <= j < i ==> !p(#[trigger] s[j]),
    ensures
        find_first(s, p) == Some(s[i]),
    decreases i,
{
    if i > 0 {
        assert(!p(s[0]));
        let t = s.drop_first();
        assert forall|j: int| 0 <= j < i - 1 implies !p(#[trigger] t[j]) by {
            assert(t[j] == s[j + 1]);
        }
        find_first_at(t, p, i - 1);
    }
}

/// `find_first` gives nothing where `p` holds of no element.
pub proof fn find_first_none<T>(s: Seq<T>, p: spec_fn(T) -> bool)
    requires
        forall|j: int| 0 <= j < s.len() ==> !p(#[trigger] s[j]),
    ensures
        find_first(s, p) is None,
    decreases s.len(),
{
    if s.len() > 0 {
        let t = s.drop_first();
        assert forall|j: int| 0 <= j < t.len() implies !p(#[trigger] t[j]) by {
            assert(t[j] == s[j + 1]);
        }
        find_first_none(t, p);
    }
}

/// What `find_first` gives is an element of `s`, `p` holds of it and of no
/// element before it; it gives nothing only where `p` holds of no element.
pub proof fn find_first_meaning<T>(s: Seq<T>, p: spec_fn(T) -> bool)
    ensures
        match find_first(s, p) {
            Some(x) => exists|i: int|
                #![trigger s[i]]
                0 <= i < s.len() && s[i] == x && p(x) && (forall|j: int|
                    0 <= j < i ==> !p(#[trigger] s[j])),
            None => forall|j: int| 0 <= j < s.len() ==> !p(#[trigger] s[j]),
        },
{
    if exists|i: int| 0 <= i < s.len() && p(#[trigger] s[i]) {
        let i = first_index(s, p, 0);
        find_first_at(s, p, i);
        assert(s[i] == s[i]);
    } else {
        find_first_none(s, p);
    }
}

proof fn first_index<T>(s: Seq<T>, p: spec_fn(T) -> bool, from: int) -> (i: int)
    requires
        0 <= from <= s.len(),
        forall|j: int| 0 <= j < from ==> !p(#[trigger] s[j]),
        exists|i: int| 0 <= i < s.len() && p(#[trigger] s[i]),
    ensures
        0 <= i < s.len(),
        p(s[i]),
        forall|j: int| 0 <= j < i ==> !p(#[trigger] s[j]),
    decreases s.len() - from,
{
    if from < s.len() && p(s[from]) {
        from
    } else {
        first_index(s, p, from + 1)
    }
}

/// Filtering one element more.
pub proof fn filter_step<T>(s: Seq<T>, p: spec_fn(T) -> bool, i: int)
    requires
        0 <= i < s.len(),
    ensures
        s.take(i + 1).filter(p) == (if p(s[i]) {
            s.take(i).filter(p).push(s[i])
        } else {
            s.take(i).filter(p)
        }),
{
    reveal(Seq::filter);
    assert(s.take(i + 1).drop_last() =~= s.take(i));
    assert(s.take(i + 1).last() == s[i]);
}

/// Filtering keeps exactly the elements for which the condition holds.
pub proof fn filter_members<T>(s: Seq<T>, p: spec_fn(T) -> bool, x: T)
    ensures
        s.filter(p).contains(x) <==> s.contains(x) && p(x),
    decreases s.len(),
{
    reveal(Seq::filter);
    if s.len() > 0 {
        let front = s.drop_last();
        filter_members(front, p, x);
        assert(s =~= front.push(s.last()));
        push_members(front, s.last(), x);
        push_members(front.filter(p), s.last(), x);
    }
}

proof fn push_members<T>(s: Seq<T>, y: T, x: T)
    ensures
        s.push(y).contains(x) <==> s.contains(x) || x == y,
{
    let t = s.push(y);
    if s.contains(x) {
        let i = choose|i: int| 0 <= i < s.len() && s[i] == x;
        assert(t[i] == x);
    }
    if x == y {
        assert(t[s.len() as int] == x);
    }
}

/// A filter that lets through all that the next one does changes nothing.
pub proof fn filter_absorbed<T>(s: Seq<T>, p: spec_fn(T) -> bool, q: spec_fn(T) -> bool)
    requires
        forall|x: T| #[trigger] q(x) ==> p(x),
    ensures
        s.filter(p).filter(q) == s.filter(q),
    decreases s.len(),
{
    reveal(Seq::filter);
    if s.len() > 0 {
        let front = s.drop_last();
        filter_absorbed(front, p, q);
        if p(s.last()) {
            assert(front.filter(p).push(s.last()).drop_last() =~= front.filter(p));
        }
    }
}

/// Both of two conditions.
pub open spec fn both<T>(p: spec_fn(T) -> bool, q: spec_fn(T) -> bool) -> spec_fn(T) -> bool {
    |x: T| p(x) && q(x)
}

/// Searching what a filter keeps is searching for both conditions.
pub proof fn find_first_filtered<T>(s: Seq<T>, p: spec_fn(T) -> bool, q: spec_fn(T) -> bool)
    ensures
        find_first(s.filter(p), q) == find_first(s, both(p, q)),
    decreases s.len(),
{
    reveal(Seq::filter);
    if s.len() > 0 {
        let one = seq![s[0]];
        let rest = s.drop_first();
        assert(s =~= one + rest);
        Seq::filter_distributes_over_add(one, rest, p);
        assert(one.take(1) =~= one);
        assert(one.take(0) =~= seq![]);
        filter_step(one, p, 0);
        find_first_filtered(rest, p, q);
        if p(s[0]) {
            assert(one.filter(p) =~= one);
            assert(s.filter(p).drop_first() =~= rest.filter(p));
        } else {
            assert(s.filter(p) =~= rest.filter(p));
        }
    }
}

/// The byte strings that a list of byte vectors holds.
pub open spec fn byte_strings(list: Seq<Vec<u8>>) -> Seq<Seq<u8>> {
    list.map_values(|b: Vec<u8>| b@)
}

/// The contents of an optional byte vector.
pub open spec fn opt_bytes(b: Option<Vec<u8>>) -> Option<Seq<u8>> {
    match b {
        Some(b) => Some(b@),
        None => None,
    }
}

/// Whether `a` and `b` hold the same bytes.
pub(crate) fn same_bytes(a: &[u8], b: &[u8]) -> (same: bool)
    ensures
        same == (a@ == b@),
{
    if a.len() != b.len() {
        return false;
    }
    let mut i: usize = 0;
    while i < a.len()
        invariant
            i <= a@.len(),
            a@.len() == b@.len(),
            forall|j: int| 0 <= j < i ==> a@[j] == b@[j],
        decreases a@.len() - i,
    {
        if a[i] != b[i] {
            return false;
        }
        i = i + 1;
    }
    assert(a@ =~= b@);
    true
}

/// A copy of `b`.
pub(crate) fn copy_bytes(b: &Vec<u8>) -> (copy: Vec<u8>)
    ensures
        copy@ == b@,
{
    vstd::slice::slice_to_vec(b.as_slice())
}

/// Whether `list` holds the byte string `b`.
pub(crate) fn holds_bytes(list: &Vec<Vec<u8>>, b: &Vec<u8>) -> (found: bool)
    ensures
        found == byte_strings(list@).contains(b@),
{
    let mut i: usize = 0;
    while i < list.len()
        invariant
            i <= list@.len(),
            forall|j: int| 0 <= j < i ==> byte_strings(list@)[j] != b@,
        decreases list@.len() - i,
    {
        if same_bytes(list[i].as_slice(), b.as_slice()) {
            assert(byte_strings(list@)[i as int] == b@);
            return true;
        }
        i = i + 1;
    }
    false
}

} // verus!
