//! Ordering by signal strength, strongest first.

use vstd::prelude::*;

verus! {

/// Something with a signal strength. Larger is stronger.
pub trait HasSignal: Sized {
    spec fn signal(&self) -> int;

    fn read_signal(&self) -> (r: i128)
        ensures
            r == self.signal(),
    ;
}

/// `x` put into `s` behind the last entry that is at least as strong.
pub open spec fn placed<T: HasSignal>(s: Seq<T>, x: T) -> Seq<T>
    decreases s.len(),
{
    if s.len() == 0 || s.last().signal() >= x.signal() {
        s.push(x)
    } else {
        placed(s.drop_last(), x).push(s.last())
    }
}

/// The entries of `s`, strongest first; entries of equal strength keep the
/// order that they have in `s`.
pub open spec fn strongest_first<T: HasSignal>(s: Seq<T>) -> Seq<T>
    decreases s.len(),
{
    if s.len() == 0 {
        s
    } else {
        placed(strongest_first(s.drop_last()), s.last())
    }
}

/// No entry is weaker than a later one.
pub open spec fn descending<T: HasSignal>(s: Seq<T>) -> bool {
    forall|i: int, j: int|
        0 <= i < j < s.len() ==> (#[trigger] s[i]).signal() >= (#[trigger] s[j]).signal()
}

/// The entries of `s` whose strength is `k`, in order.
pub open spec fn of_strength<T: HasSignal>(s: Seq<T>, k: int) -> Seq<T>
    decreases s.len(),
{
    if s.len() == 0 {
        s
    } else if s.last().signal() == k {
        of_strength(s.drop_last(), k).push(s.last())
    } else {
        of_strength(s.drop_last(), k)
    }
}

proof fn lemma_placed<T: HasSignal>(s: Seq<T>, x: T, pos: int)
    requires
        0 <= pos <= s.len(),
        pos == 0 || s[pos - 1].signal() >= x.signal(),
        forall|i: int| pos <= i < s.len() ==> (#[trigger] s[i]).signal() < x.signal(),
    ensures
        placed(s, x) == s.insert(pos, x),
    decreases s.len(),
{
    if pos == s.len() {
        assert(s.insert(pos, x) =~= s.push(x));
    } else {
        assert(s.last() == s[s.len() - 1]);
        let t = s.drop_last();
        assert(pos == 0 || t[pos - 1] == s[pos - 1]);
        assert(forall|i: int| pos <= i < t.len() ==> t[i] == #[trigger] s[i]);
        lemma_placed(t, x, pos);
        assert(t.insert(pos, x).push(s.last()) =~= s.insert(pos, x));
    }
}

/// Sorts strongest first, keeping the order of entries of equal strength.
pub fn sort_strongest_first<T: HasSignal>(v: Vec<T>) -> (r: Vec<T>)
    ensures
        r@ == strongest_first(v@),
{
    let ghost input = v@;
    let mut rest = v;
    let mut taken: Vec<T> = Vec::new();
    // Reverse the input, so that each entry is moved out from the back.
    let mut back: Vec<T> = Vec::new();
    while rest.len() > 0
        invariant
            rest@.len() + back@.len() == input.len(),
            rest@ == input.take(rest@.len() as int),
            forall|i: int|
                0 <= i < back@.len() ==> #[trigger] back@[i] == input[input.len() - 1 - i],
        decreases rest@.len(),
    {
        let ghost n = rest@.len();
        if let Some(x) = rest.pop() {
            back.push(x);
        }
        assert(rest@ =~= input.take(n - 1));
    }
    assert(input.take(0) =~= Seq::<T>::empty());
    while back.len() > 0
        invariant
            back@.len() <= input.len(),
            taken@ == strongest_first(input.take(input.len() - back@.len())),
            forall|i: int|
                0 <= i < back@.len() ==> #[trigger] back@[i] == input[input.len() - 1 - i],
        decreases back@.len(),
    {
        let ghost n = input.len() - back@.len();
        if let Some(x) = back.pop() {
            assert(x == input[n as int]);
            let key = x.read_signal();
            let mut pos: usize = taken.len();
            while pos > 0 && taken[pos - 1].read_signal() < key
                invariant
                    pos <= taken@.len(),
                    key == x.signal(),
                    forall|i: int|
                        pos <= i < taken@.len() ==> (#[trigger] taken@[i]).signal() < x.signal(),
                decreases pos,
            {
                pos -= 1;
            }
            proof {
                lemma_placed(taken@, x, pos as int);
                assert(input.take(n + 1).drop_last() =~= input.take(n as int));
                assert(input.take(n + 1).last() == x);
            }
            taken.insert(pos, x);
        }
    }
    assert(input.take(input.len() as int) =~= input);
    taken
}

proof fn lemma_placed_props<T: HasSignal>(s: Seq<T>, x: T, k: int)
    requires
        descending(s),
    ensures
        descending(placed(s, x)),
        placed(s, x).len() == s.len() + 1,
        placed(s, x).to_multiset() == s.to_multiset().insert(x),
        of_strength(placed(s, x), k) == if x.signal() == k {
            of_strength(s, k).push(x)
        } else {
            of_strength(s, k)
        },
        forall|i: int|
            0 <= i < placed(s, x).len() ==> (#[trigger] placed(s, x)[i]) == x || s.contains(
                placed(s, x)[i],
            ),
    decreases s.len(),
{
    broadcast use vstd::seq_lib::group_to_multiset_ensures;

    let p = placed(s, x);
    if s.len() == 0 || s.last().signal() >= x.signal() {
        assert(p.drop_last() =~= s);
        assert(p.last() == x);
        assert forall|i: int, j: int| 0 <= i < j < p.len() implies (#[trigger] p[i]).signal()
            >= (#[trigger] p[j]).signal() by {
            if j == s.len() {
                assert(s[i].signal() >= s[s.len() - 1].signal());
            }
        }
        assert forall|i: int| 0 <= i < p.len() implies (#[trigger] p[i]) == x || s.contains(
            p[i],
        ) by {
            if i < s.len() {
                assert(s[i] == p[i]);
            }
        }
    } else {
        let t = s.drop_last();
        let q = placed(t, x);
        lemma_placed_props(t, x, k);
        assert(p == q.push(s.last()));
        assert(p.drop_last() =~= q);
        assert forall|i: int, j: int| 0 <= i < j < p.len() implies (#[trigger] p[i]).signal()
            >= (#[trigger] p[j]).signal() by {
            if j == q.len() {
                assert(p[i] == q[i]);
                if q[i] != x {
                    assert(t.contains(q[i]));
                    let m = choose|m: int| 0 <= m < t.len() && t[m] == q[i];
                    assert(s[m].signal() >= s[s.len() - 1].signal());
                }
            } else {
                assert(q[i].signal() >= q[j].signal());
            }
        }
        assert(s =~= t.push(s.last()));
        assert(p.to_multiset() =~= s.to_multiset().insert(x));
        assert forall|i: int| 0 <= i < p.len() implies (#[trigger] p[i]) == x || s.contains(
            p[i],
        ) by {
            if i < q.len() {
                assert(p[i] == q[i]);
                if q[i] != x {
                    let m = choose|m: int| 0 <= m < t.len() && t[m] == q[i];
                    assert(s[m] == p[i]);
                }
            } else {
                assert(s[s.len() - 1] == p[i]);
            }
        }
    }
}

/// Sorting strongest first leaves no entry behind a weaker one, neither loses
/// nor adds an entry, and keeps the order of entries of equal strength.
pub proof fn strongest_first_is_a_stable_sort<T: HasSignal>(s: Seq<T>, k: int)
    ensures
        descending(strongest_first(s)),
        strongest_first(s).to_multiset() == s.to_multiset(),
        strongest_first(s).len() == s.len(),
        of_strength(strongest_first(s), k) == of_strength(s, k),
    decreases s.len(),
{
    broadcast use vstd::seq_lib::group_to_multiset_ensures;

    if s.len() > 0 {
        let t = s.drop_last();
        strongest_first_is_a_stable_sort(t, k);
        lemma_placed_props(strongest_first(t), s.last(), k);
        assert(s =~= t.push(s.last()));
    }
}

} // verus!
