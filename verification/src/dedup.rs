//! Dropping what is repeated: what it means for a sequence, and what holds of
//! the result.

use vstd::prelude::*;

verus! {

/// The sequence without its repeats: of equal items only the first stays, and
/// what stays keeps its order.
pub open spec fn without_repeats<T>(s: Seq<T>) -> Seq<T>
    decreases s.len(),
{
    if s.len() == 0 {
        s
    } else {
        let kept = without_repeats(s.drop_last());
        if kept.contains(s.last()) {
            kept
        } else {
            kept.push(s.last())
        }
    }
}

/// Whether the item at `i` occurs nowhere before `i`.
pub open spec fn is_first_occurrence<T>(s: Seq<T>, i: int) -> bool {
    &&& 0 <= i < s.len()
    &&& forall|j: int| 0 <= j < i ==> s[j] != s[i]
}

/// The places of the items that stay, in rising order.
pub open spec fn kept_places<T>(s: Seq<T>) -> Seq<int>
    decreases s.len(),
{
    if s.len() == 0 {
        Seq::empty()
    } else {
        let places = kept_places(s.drop_last());
        if without_repeats(s.drop_last()).contains(s.last()) {
            places
        } else {
            places.push(s.len() - 1)
        }
    }
}

/// Nothing is lost and nothing is added: an item occurs in the result exactly
/// when it occurs in the sequence.
pub proof fn same_items<T>(s: Seq<T>)
    ensures
        forall|x: T| without_repeats(s).contains(x) <==> s.contains(x),
        without_repeats(s).len() <= s.len(),
    decreases s.len(),
{
    if s.len() > 0 {
        let front = s.drop_last();
        let kept = without_repeats(front);
        let all = without_repeats(s);
        same_items(front);
        assert(all == if kept.contains(s.last()) {
            kept
        } else {
            kept.push(s.last())
        });
        assert forall|x: T| all.contains(x) implies s.contains(x) by {
            let k = choose|k: int| 0 <= k < all.len() && all[k] == x;
            if k < kept.len() {
                assert(kept[k] == x);
                assert(front.contains(x));
                let i = choose|i: int| 0 <= i < front.len() && front[i] == x;
                assert(s[i] == x);
            } else {
                assert(s[s.len() - 1] == x);
            }
        }
        assert forall|x: T| s.contains(x) implies all.contains(x) by {
            let i = choose|i: int| 0 <= i < s.len() && s[i] == x;
            if i < front.len() {
                assert(front[i] == x);
                assert(front.contains(x));
            }
            if kept.contains(x) {
                let k = choose|k: int| 0 <= k < kept.len() && kept[k] == x;
                assert(all[k] == x);
            } else {
                assert(all[kept.len() as int] == x);
            }
        }
    }
}

/// No item occurs twice in the result.
pub proof fn no_repeats_left<T>(s: Seq<T>)
    ensures
        without_repeats(s).no_duplicates(),
    decreases s.len(),
{
    if s.len() > 0 {
        no_repeats_left(s.drop_last());
    }
}

/// The result is made of the first occurrences, in the order in which they
/// stand in the sequence.
pub proof fn first_occurrences_stay<T>(s: Seq<T>)
    ensures
        kept_places(s).len() == without_repeats(s).len(),
        forall|k: int|
            0 <= k < kept_places(s).len() ==> {
                &&& is_first_occurrence(s, #[trigger] kept_places(s)[k])
                &&& without_repeats(s)[k] == s[kept_places(s)[k]]
            },
        forall|k: int, l: int|
            0 <= k < l < kept_places(s).len() ==> kept_places(s)[k] < kept_places(s)[l],
        forall|i: int| is_first_occurrence(s, i) ==> kept_places(s).contains(i),
    decreases s.len(),
{
    if s.len() > 0 {
        let front = s.drop_last();
        let last = s.len() - 1;
        first_occurrences_stay(front);
        same_items(front);
        let places = kept_places(s);
        assert forall|k: int| 0 <= k < places.len() implies {
            &&& is_first_occurrence(s, #[trigger] places[k])
            &&& without_repeats(s)[k] == s[places[k]]
        } by {
            if k < kept_places(front).len() {
                let i = kept_places(front)[k];
                assert(is_first_occurrence(front, i));
                assert forall|j: int| 0 <= j < i implies s[j] != s[i] by {
                    assert(front[j] != front[i]);
                }
            } else {
                assert(places[k] == last);
                assert forall|j: int| 0 <= j < last implies s[j] != s[last] by {
                    if s[j] == s[last] {
                        assert(front[j] == s.last());
                        assert(front.contains(s.last()));
                    }
                }
            }
        }
        assert forall|k: int, l: int| 0 <= k < l < places.len() implies places[k] < places[l] by {
            if l >= kept_places(front).len() {
                assert(is_first_occurrence(front, kept_places(front)[k]));
            }
        }
        assert forall|i: int| is_first_occurrence(s, i) implies places.contains(i) by {
            if i < last {
                assert forall|j: int| 0 <= j < i implies front[j] != front[i] by {
                    assert(s[j] != s[i]);
                }
                assert(is_first_occurrence(front, i));
                let k = choose|k: int|
                    0 <= k < kept_places(front).len() && kept_places(front)[k] == i;
                assert(places[k] == i);
            } else {
                if front.contains(s.last()) {
                    let j = choose|j: int| 0 <= j < front.len() && front[j] == s.last();
                    assert(s[j] == s[i]);
                }
                assert(places[places.len() - 1] == i);
            }
        }
    }
}

/// A sequence in which nothing occurs twice stays as it is.
pub proof fn nothing_to_drop<T>(s: Seq<T>)
    requires
        s.no_duplicates(),
    ensures
        without_repeats(s) == s,
    decreases s.len(),
{
    if s.len() > 0 {
        let front = s.drop_last();
        nothing_to_drop(front);
        same_items(front);
        if front.contains(s.last()) {
            let j = choose|j: int| 0 <= j < front.len() && front[j] == s.last();
            assert(s[j] == s[s.len() - 1]);
        }
        assert(front.push(s.last()) =~= s);
    }
}

/// Dropping the repeats a second time changes nothing.
pub proof fn dropping_twice<T>(s: Seq<T>)
    ensures
        without_repeats(without_repeats(s)) == without_repeats(s),
{
    no_repeats_left(s);
    nothing_to_drop(without_repeats(s));
}

/// An item that is added behind an equal one is dropped.
pub proof fn repeat_is_dropped<T>(s: Seq<T>, x: T)
    requires
        s.contains(x),
    ensures
        without_repeats(s.push(x)) == without_repeats(s),
{
    same_items(s);
    assert(s.push(x).drop_last() =~= s);
}

/// The first item of a sequence stays in front.
pub proof fn first_stays<T>(s: Seq<T>)
    requires
        s.len() > 0,
    ensures
        without_repeats(s).len() > 0,
        without_repeats(s)[0] == s[0],
    decreases s.len(),
{
    if s.len() > 1 {
        first_stays(s.drop_last());
    } else {
        assert(without_repeats(s.drop_last()).len() == 0);
    }
}

} // verus!
