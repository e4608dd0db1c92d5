//! Lists of node names.

use vstd::prelude::*;

verus! {

/// The test that a name is another one than `id`.
pub open spec fn other_than(id: Seq<char>) -> spec_fn(Seq<char>) -> bool {
    |n: Seq<char>| n != id
}

/// The list `names` without every occurrence of `id`, order kept.
pub open spec fn without(names: Seq<Seq<char>>, id: Seq<char>) -> Seq<Seq<char>> {
    names.filter(other_than(id))
}

/// `names` followed by those entries of `more` that are not yet present, each
/// once, in the order of their first occurrence.
pub open spec fn joined(names: Seq<Seq<char>>, more: Seq<Seq<char>>) -> Seq<Seq<char>>
    decreases more.len(),
{
    if more.len() == 0 {
        names
    } else {
        let head = joined(names, more.drop_last());
        if head.contains(more.last()) {
            head
        } else {
            head.push(more.last())
        }
    }
}

/// The entries of `names`, each once, in the order of their first occurrence.
pub open spec fn distinct(names: Seq<Seq<char>>) -> Seq<Seq<char>> {
    joined(Seq::empty(), names)
}

/// What is left after [`without`] holds no `id`, and only entries of `names`.
pub proof fn lemma_without_excludes(names: Seq<Seq<char>>, id: Seq<char>)
    ensures
        !without(names, id).contains(id),
        forall|n: Seq<char>| without(names, id).contains(n) <==> names.contains(n) && n != id,
{
    let pred = other_than(id);
    assert forall|n: Seq<char>| without(names, id).contains(n) implies names.contains(n) && n
        != id by {
        let kept = names.filter(pred);
        assert(kept.contains(n));
        let i = choose|i: int| 0 <= i < kept.len() && kept[i] == n;
        names.lemma_filter_pred(pred, i);
        names.lemma_filter_contains_rev(pred, n);
    }
    assert forall|n: Seq<char>| names.contains(n) && n != id implies without(names, id).contains(
        n,
    ) by {
        let i = choose|i: int| 0 <= i < names.len() && names[i] == n;
        names.lemma_filter_contains(pred, i);
    }
}

/// [`joined`] holds exactly the entries of both lists, and keeps a list
/// without repetitions free of them.
pub proof fn lemma_joined_members(names: Seq<Seq<char>>, more: Seq<Seq<char>>)
    ensures
        forall|n: Seq<char>| joined(names, more).contains(n) <==> names.contains(n) || more.contains(n),
        names.no_duplicates() ==> joined(names, more).no_duplicates(),
        names.len() <= joined(names, more).len(),
        names =~= joined(names, more).take(names.len() as int),
    decreases more.len(),
{
    if more.len() > 0 {
        let head = joined(names, more.drop_last());
        lemma_joined_members(names, more.drop_last());
        let all = joined(names, more);
        assert forall|n: Seq<char>| all.contains(n) <==> names.contains(n) || more.contains(n) by {
            if more.contains(n) {
                let i = choose|i: int| 0 <= i < more.len() && more[i] == n;
                if i < more.len() - 1 {
                    assert(more.drop_last()[i] == n);
                }
            }
            if more.drop_last().contains(n) {
                let i = choose|i: int| 0 <= i < more.drop_last().len() && more.drop_last()[i] == n;
                assert(more[i] == n);
            }
            assert(more[more.len() - 1] == more.last());
            if !head.contains(more.last()) {
                assert(all[all.len() - 1] == more.last());
                if head.contains(n) {
                    let i = choose|i: int| 0 <= i < head.len() && head[i] == n;
                    assert(all[i] == n);
                }
            }
        }
    }
}

/// Tells whether `id` occurs in `names`.
pub fn contains_name(names: &Vec<String>, id: &String) -> (found: bool)
    ensures
        found == names.deep_view().contains(id@),
{
    let mut i: usize = 0;
    while i < names.len()
        invariant
            i <= names.len(),
            forall|j: int| 0 <= j < i ==> names.deep_view()[j] != id@,
        decreases names.len() - i,
    {
        if names[i] == *id {
            assert(names.deep_view()[i as int] == id@);
            return true;
        }
        i += 1;
    }
    false
}

/// An independent copy of `names`.
pub fn copy_names(names: &Vec<String>) -> (r: Vec<String>)
    ensures
        r.deep_view() == names.deep_view(),
{
    let mut out: Vec<String> = Vec::new();
    let mut i: usize = 0;
    while i < names.len()
        invariant
            i <= names.len(),
            out.deep_view() =~= names.deep_view().take(i as int),
        decreases names.len() - i,
    {
        let ghost before = out.deep_view();
        out.push(names[i].clone());
        assert(out.deep_view() =~= before.push(names[i as int]@));
        i += 1;
    }
    assert(names.deep_view().take(names.len() as int) =~= names.deep_view());
    out
}

/// The entries of `names` other than `id`, in their order.
pub fn without_name(names: &Vec<String>, id: &String) -> (r: Vec<String>)
    ensures
        r.deep_view() == without(names.deep_view(), id@),
{
    let ghost pred = other_than(id@);
    let mut out: Vec<String> = Vec::new();
    let mut i: usize = 0;
    proof {
        reveal(Seq::filter);
        assert(names.deep_view().take(0).filter(pred) =~= Seq::<Seq<char>>::empty());
    }
    while i < names.len()
        invariant
            i <= names.len(),
            pred == other_than(id@),
            out.deep_view() =~= names.deep_view().take(i as int).filter(pred),
        decreases names.len() - i,
    {
        proof {
            let before = names.deep_view().take(i as int);
            let after = names.deep_view().take(i as int + 1);
            assert(after.drop_last() =~= before);
            assert(after.last() == names[i as int]@);
            reveal(Seq::filter);
        }
        if !(names[i] == *id) {
            out.push(names[i].clone());
        }
        i += 1;
    }
    assert(names.deep_view().take(names.len() as int) =~= names.deep_view());
    out
}

/// Appends to `names` every entry of `more` that it does not hold yet.
pub fn join_names(names: &mut Vec<String>, more: &[String])
    ensures
        final(names).deep_view() == joined(old(names).deep_view(), more.deep_view()),
{
    let mut i: usize = 0;
    assert(more.deep_view().take(0) =~= Seq::<Seq<char>>::empty());
    while i < more.len()
        invariant
            i <= more.len(),
            names.deep_view() =~= joined(old(names).deep_view(), more.deep_view().take(i as int)),
        decreases more.len() - i,
    {
        proof {
            let before = more.deep_view().take(i as int);
            let after = more.deep_view().take(i as int + 1);
            assert(after.drop_last() =~= before);
            assert(after.last() == more[i as int]@);
        }
        if !contains_name(names, &more[i]) {
            names.push(more[i].clone());
        }
        i += 1;
    }
    assert(more.deep_view().take(more.len() as int) =~= more.deep_view());
}

/// The entries of `names`, each once, in the order of their first occurrence.
pub fn distinct_names(names: &[String]) -> (r: Vec<String>)
    ensures
        r.deep_view() == distinct(names.deep_view()),
{
    let mut out: Vec<String> = Vec::new();
    assert(out.deep_view() =~= Seq::<Seq<char>>::empty());
    join_names(&mut out, names);
    out
}

} // verus!
