use vstd::prelude::*;

use crate::address::Address;

verus! {

/// Holds of every address but `a`.
pub open spec fn differs_from(a: Address) -> spec_fn(Address) -> bool {
    |x: Address| x != a
}

/// `s` with every occurrence of `a` taken out, the rest in order.
pub open spec fn without(s: Seq<Address>, a: Address) -> Seq<Address> {
    s.filter(differs_from(a))
}

/// Taking out an address that is not there changes nothing.
pub proof fn lemma_without_absent(s: Seq<Address>, a: Address)
    requires
        !s.contains(a),
    ensures
        without(s, a) == s,
    decreases s.len(),
{
    reveal(Seq::filter);
    if s.len() > 0 {
        let d = s.drop_last();
        assert(!d.contains(a)) by {
            if d.contains(a) {
                let k = choose|k: int| 0 <= k < d.len() && d[k] == a;
                assert(s[k] == a);
            }
        }
        lemma_without_absent(d, a);
        assert(s.last() != a);
        assert(s =~= d.push(s.last()));
    }
}

/// What is left after taking out `a` holds no `a`, comes from `s`, and has
/// no duplicates where `s` had none.
pub proof fn lemma_without_members(s: Seq<Address>, a: Address)
    ensures
        forall|x: Address| #[trigger]
            without(s, a).contains(x) ==> x != a && s.contains(x),
        s.no_duplicates() ==> without(s, a).no_duplicates(),
    decreases s.len(),
{
    reveal(Seq::filter);
    if s.len() > 0 {
        let d = s.drop_last();
        let l = s.last();
        let f = without(d, a);
        lemma_without_members(d, a);
        assert(s =~= d.push(l));
        d.lemma_filter_push(l, differs_from(a));
        assert forall|x: Address| #[trigger] d.contains(x) implies s.contains(x) by {
            let k = choose|k: int| 0 <= k < d.len() && d[k] == x;
            assert(s[k] == x);
        }
        if l == a {
            assert(without(s, a) == f);
        } else {
            assert(without(s, a) == f.push(l));
            assert forall|x: Address| #[trigger] f.push(l).contains(x) implies x != a
                && s.contains(x) by {
                let k = choose|k: int| 0 <= k < f.len() + 1 && f.push(l)[k] == x;
                if k < f.len() {
                    assert(f[k] == x);
                    assert(f.contains(x));
                } else {
                    assert(s[s.len() - 1] == x);
                }
            }
            if s.no_duplicates() {
                assert(d.no_duplicates());
                assert(!f.contains(l)) by {
                    if f.contains(l) {
                        let k = choose|k: int| 0 <= k < d.len() && d[k] == l;
                        assert(s[k] == s[s.len() - 1]);
                    }
                }
                assert forall|i: int, j: int|
                    0 <= i < f.len() + 1 && 0 <= j < f.len() + 1 && i != j implies f.push(l)[i]
                    != f.push(l)[j] by {
                    if i < f.len() && j < f.len() {
                        assert(f[i] != f[j]);
                    } else if i < f.len() {
                        assert(f.contains(f[i]));
                    } else {
                        assert(f.contains(f[j]));
                    }
                }
            }
        }
    }
}

/// Taking one address out of a list without duplicates that holds it
/// shortens the list by one.
pub proof fn lemma_without_present(s: Seq<Address>, a: Address)
    requires
        s.no_duplicates(),
        s.contains(a),
    ensures
        without(s, a).len() + 1 == s.len(),
    decreases s.len(),
{
    reveal(Seq::filter);
    let d = s.drop_last();
    let l = s.last();
    assert(s =~= d.push(l));
    assert(d.no_duplicates());
    if l == a {
        assert(!d.contains(a)) by {
            if d.contains(a) {
                let k = choose|k: int| 0 <= k < d.len() && d[k] == a;
                assert(s[k] == s[s.len() - 1]);
            }
        }
        lemma_without_absent(d, a);
    } else {
        let k = choose|k: int| 0 <= k < s.len() && s[k] == a;
        assert(d[k] == a);
        lemma_without_present(d, a);
    }
}

/// Whether `a` is among `likers`.
pub(crate) fn has_liked(likers: &Vec<Address>, a: &Address) -> (r: bool)
    ensures
        r == likers@.contains(*a),
{
    let mut i: usize = 0;
    while i < likers.len()
        invariant
            0 <= i <= likers@.len(),
            forall|j: int| 0 <= j < i ==> likers@[j] != *a,
        decreases likers@.len() - i,
    {
        if likers[i] == *a {
            return true;
        }
        i = i + 1;
    }
    false
}

/// `likers` with every occurrence of `a` taken out.
pub(crate) fn remove_liker(likers: &Vec<Address>, a: &Address) -> (r: Vec<Address>)
    ensures
        r@ == without(likers@, *a),
{
    let mut out: Vec<Address> = Vec::new();
    let mut i: usize = 0;
    while i < likers.len()
        invariant
            0 <= i <= likers@.len(),
            out@ == without(likers@.subrange(0, i as int), *a),
        decreases likers@.len() - i,
    {
        let x = likers[i];
        proof {
            assert(likers@.subrange(0, i + 1) =~= likers@.subrange(0, i as int).push(x));
            likers@.subrange(0, i as int).lemma_filter_push(x, differs_from(*a));
        }
        if x != *a {
            out.push(x);
        }
        i = i + 1;
    }
    assert(likers@.subrange(0, likers@.len() as int) =~= likers@);
    out
}

} // verus!
