//! Sequences of names, and the small facts about appending them that
//! the collectors and walkers use throughout.
use vstd::prelude::*;

verus! {

/// The character sequences of a sequence of strings.
pub open spec fn names_view(s: Seq<String>) -> Seq<Seq<char>> {
    s.map(|i: int, x: String| x@)
}

pub broadcast proof fn lemma_app_assoc(a: Seq<Seq<char>>, b: Seq<Seq<char>>, c: Seq<Seq<char>>)
    ensures
        #[trigger] ((a + b) + c) == a + (b + c),
{
    assert((a + b) + c =~= a + (b + c));
}

pub broadcast proof fn lemma_app_empty_right(s: Seq<Seq<char>>)
    ensures
        #[trigger] (s + Seq::<Seq<char>>::empty()) == s,
{
    assert(s + Seq::<Seq<char>>::empty() =~= s);
}

pub broadcast proof fn lemma_app_empty_left(s: Seq<Seq<char>>)
    ensures
        #[trigger] (Seq::<Seq<char>>::empty() + s) == s,
{
    assert(Seq::<Seq<char>>::empty() + s =~= s);
}

pub broadcast proof fn lemma_names_view_push(s: Seq<String>, x: String)
    ensures
        #[trigger] names_view(s.push(x)) == names_view(s) + seq![x@],
{
    assert(names_view(s.push(x)) =~= names_view(s) + seq![x@]);
}

pub broadcast proof fn lemma_app_contains(a: Seq<Seq<char>>, b: Seq<Seq<char>>, x: Seq<char>)
    ensures
        #[trigger] (a + b).contains(x) == (a.contains(x) || b.contains(x)),
{
    if a.contains(x) {
        let i = choose|i: int| 0 <= i < a.len() && a[i] == x;
        assert((a + b)[i] == x);
    }
    if b.contains(x) {
        let i = choose|i: int| 0 <= i < b.len() && b[i] == x;
        assert((a + b)[a.len() + i] == x);
    }
    if (a + b).contains(x) {
        let i = choose|i: int| 0 <= i < (a + b).len() && (a + b)[i] == x;
        if i < a.len() {
            assert(a[i] == x);
        } else {
            assert(b[i - a.len()] == x);
        }
    }
}

pub broadcast proof fn lemma_push_drop_last<T>(s: Seq<T>, x: T)
    ensures
        #[trigger] s.push(x).drop_last() == s,
{
    assert(s.push(x).drop_last() =~= s);
}

pub broadcast proof fn lemma_names_view_empty(s: Seq<String>)
    ensures
        s.len() == 0 ==> #[trigger] names_view(s) == Seq::<Seq<char>>::empty(),
{
    if s.len() == 0 {
        assert(names_view(s) =~= Seq::<Seq<char>>::empty());
    }
}

} // verus!
