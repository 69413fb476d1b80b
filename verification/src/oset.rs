//! Ordered string sets: insertion order is kept, duplicates are dropped.
//!
//! The analyses accumulate global names, canonical builtin symbols and
//! package identifiers in first-seen order.  The storage is indexmap's
//! `IndexSet`, which keeps insertion order; its contents are named by the
//! uninterpreted function [`iset_elems`] and every method the library uses
//! is wrapped with a contract that states what the crate documents.
use vstd::prelude::*;

verus! {

#[verifier::external_type_specification]
#[verifier::external_body]
#[verifier::reject_recursive_types(T)]
#[verifier::reject_recursive_types(S)]
pub struct ExIndexSet<T, S>(indexmap::IndexSet<T, S>);

/// The elements held by an `IndexSet` of strings, in insertion order.
pub uninterp spec fn iset_elems(s: indexmap::IndexSet<String>) -> Seq<Seq<char>>;

/// Appending a name to an ordered set: a name already present is dropped,
/// a new one goes to the end.
pub open spec fn oset_add(s: Seq<Seq<char>>, v: Seq<char>) -> Seq<Seq<char>> {
    if s.contains(v) {
        s
    } else {
        s.push(v)
    }
}

/// Union in first-seen order: the elements of `b` are appended to `a`,
/// each one dropped if already present.
pub open spec fn oset_union(a: Seq<Seq<char>>, b: Seq<Seq<char>>, n: int) -> Seq<Seq<char>>
    decreases n,
{
    if n <= 0 {
        a
    } else {
        oset_add(oset_union(a, b, n - 1), b[n - 1])
    }
}

/// Relies on `indexmap::IndexSet::new`: creates an empty set.
#[verifier::external_body]
fn iset_new() -> (r: indexmap::IndexSet<String>)
    ensures
        iset_elems(r) == Seq::<Seq<char>>::empty(),
{
    indexmap::IndexSet::new()
}

/// Relies on `indexmap::IndexSet::insert`: an equivalent item already in
/// the set leaves the set unchanged and returns false; otherwise the item
/// is appended and true is returned.
#[verifier::external_body]
fn iset_insert(s: &mut indexmap::IndexSet<String>, v: String) -> (r: bool)
    ensures
        iset_elems(*final(s)) == oset_add(iset_elems(*old(s)), v@),
        r == !iset_elems(*old(s)).contains(v@),
{
    s.insert(v)
}

/// Relies on `indexmap::IndexSet::contains`: whether an equivalent item is
/// in the set; `String` equivalence is character equality.
#[verifier::external_body]
fn iset_contains(s: &indexmap::IndexSet<String>, v: &String) -> (r: bool)
    ensures
        r == iset_elems(*s).contains(v@),
{
    s.contains(v.as_str())
}

/// Relies on `indexmap::IndexSet::len`: the number of elements.
#[verifier::external_body]
fn iset_len(s: &indexmap::IndexSet<String>) -> (r: usize)
    ensures
        r == iset_elems(*s).len(),
{
    s.len()
}

/// Relies on `indexmap::IndexSet::iter`: the elements come out in their
/// insertion order.
#[verifier::external_body]
fn iset_items(s: &indexmap::IndexSet<String>) -> (r: Vec<String>)
    ensures
        r@.len() == iset_elems(*s).len(),
        forall|i: int| 0 <= i < r@.len() ==> r@[i]@ == iset_elems(*s)[i],
{
    s.iter().cloned().collect()
}

/// Relies on `indexmap::IndexSet::get_index`: the element at a valid index,
/// counted in insertion order.
#[verifier::external_body]
fn iset_get(s: &indexmap::IndexSet<String>, i: usize) -> (r: String)
    requires
        i < iset_elems(*s).len(),
    ensures
        r@ == iset_elems(*s)[i as int],
{
    s.get_index(i).unwrap().clone()
}

/// An ordered set of names: first-seen order, no duplicates.
pub struct OrderedSet {
    elems: indexmap::IndexSet<String>,
}

impl OrderedSet {
    /// The names in the set, in insertion order.
    pub closed spec fn view(&self) -> Seq<Seq<char>> {
        iset_elems(self.elems)
    }

    /// An empty ordered set.
    pub fn new() -> (r: Self)
        ensures
            r@ == Seq::<Seq<char>>::empty(),
    {
        OrderedSet { elems: iset_new() }
    }

    /// Append a name; a name already present leaves the set unchanged.
    pub fn insert(&mut self, v: String)
        ensures
            final(self)@ == oset_add(old(self)@, v@),
    {
        iset_insert(&mut self.elems, v);
    }

    /// Whether the set holds the name.
    pub fn contains(&self, v: &String) -> (r: bool)
        ensures
            r == self@.contains(v@),
    {
        iset_contains(&self.elems, v)
    }

    /// The number of names in the set.
    pub fn len(&self) -> (r: usize)
        ensures
            r == self@.len(),
    {
        iset_len(&self.elems)
    }

    /// The names as a vector, in insertion order.
    pub fn items(&self) -> (r: Vec<String>)
        ensures
            r@.len() == self@.len(),
            forall|i: int| 0 <= i < r@.len() ==> r@[i]@ == self@[i],
    {
        iset_items(&self.elems)
    }

    /// The name at an index, counted in insertion order.
    pub fn get(&self, i: usize) -> (r: String)
        requires
            i < self@.len(),
        ensures
            r@ == self@[i as int],
    {
        iset_get(&self.elems, i)
    }

    /// Append every name of `other`, in its order, dropping duplicates.
    pub fn union_with(&mut self, other: &OrderedSet)
        ensures
            final(self)@ == oset_union(old(self)@, other@, other@.len() as int),
    {
        let n = other.len();
        let mut i: usize = 0;
        while i < n
            invariant
                n == other@.len(),
                i <= n,
                self@ == oset_union(old(self)@, other@, i as int),
            decreases n - i,
        {
            self.insert(other.get(i));
            i = i + 1;
        }
    }
}

/// Union with oneself changes nothing: merging a set into itself is
/// idempotent.
pub proof fn lemma_union_idempotent(s: Seq<Seq<char>>, n: int)
    requires
        0 <= n <= s.len(),
    ensures
        oset_union(s, s, n) == s,
    decreases n,
{
    if n > 0 {
        lemma_union_idempotent(s, n - 1);
        assert(s.contains(s[n - 1]));
    }
}

/// After adding a name, the set holds it.
pub proof fn lemma_add_contains(s: Seq<Seq<char>>, v: Seq<char>)
    ensures
        oset_add(s, v).contains(v),
{
    if !s.contains(v) {
        assert(s.push(v)[s.len() as int] == v);
    }
}

/// What an ordered set holds after adding a name: the name itself and
/// whatever was there before, nothing else.
pub proof fn lemma_add_contains_iff(s: Seq<Seq<char>>, v: Seq<char>, x: Seq<char>)
    ensures
        oset_add(s, v).contains(x) == (s.contains(x) || v == x),
{
    if s.contains(v) {
    } else {
        if s.contains(x) {
            let i = choose|i: int| 0 <= i < s.len() && s[i] == x;
            assert(s.push(v)[i] == x);
        }
        if v == x {
            assert(s.push(v)[s.len() as int] == x);
        }
        if s.push(v).contains(x) {
            let i = choose|i: int| 0 <= i < s.push(v).len() && s.push(v)[i] == x;
            if i < s.len() {
                assert(s[i] == x);
            }
        }
    }
}

/// No duplicate stands in the sequence.
pub open spec fn distinct(s: Seq<Seq<char>>) -> bool {
    forall|i: int, j: int| 0 <= i < j < s.len() ==> s[i] != s[j]
}

/// Adding a name keeps an ordered set free of duplicates.
pub proof fn lemma_add_distinct(s: Seq<Seq<char>>, v: Seq<char>)
    requires
        distinct(s),
    ensures
        distinct(oset_add(s, v)),
{
    if !s.contains(v) {
        assert forall|i: int, j: int| 0 <= i < j < s.push(v).len() implies s.push(v)[i] != s.push(
            v,
        )[j] by {
            if j == s.len() {
                assert(s[i] == s.push(v)[i]);
                assert(!s.contains(v));
                assert(s[i] != v) by {
                    if s[i] == v {
                        assert(s.contains(v));
                    }
                }
            }
        }
    }
}

/// Merging keeps an ordered set free of duplicates.
pub proof fn lemma_union_distinct(a: Seq<Seq<char>>, b: Seq<Seq<char>>, n: int)
    requires
        distinct(a),
    ensures
        distinct(oset_union(a, b, n)),
    decreases n,
{
    if n > 0 {
        lemma_union_distinct(a, b, n - 1);
        lemma_add_distinct(oset_union(a, b, n - 1), b[n - 1]);
    }
}

} // verus!
