//! Association lists keyed by principal, read as finite maps.
//!
//! Both persistent maps of the authority are kept as vectors of records in
//! which no principal occurs twice. This module says which map such a list
//! stands for and how the list operations act on that map.

use vstd::prelude::*;

verus! {

/// A list of (principal, value) pairs.
pub type Pairs<V> = Seq<(Seq<char>, V)>;

/// `i` is a position of `pairs` that holds the principal `who`.
pub open spec fn holds_at<V>(pairs: Pairs<V>, who: Seq<char>, i: int) -> bool {
    0 <= i < pairs.len() && pairs[i].0 == who
}

/// No principal occurs at two positions.
pub open spec fn distinct<V>(pairs: Pairs<V>) -> bool {
    forall|i: int, j: int| 0 <= i < j < pairs.len() ==> pairs[i].0 != pairs[j].0
}

/// The map that a list stands for: a principal is bound if it occurs, and
/// then to the value at its position.
pub open spec fn table<V>(pairs: Pairs<V>) -> Map<Seq<char>, V> {
    Map::new(
        |who: Seq<char>| exists|i: int| holds_at(pairs, who, i),
        |who: Seq<char>| pairs[choose|i: int| holds_at(pairs, who, i)].1,
    )
}

/// In a list without repetition, each position decides the binding of its principal.
pub proof fn lemma_found<V>(pairs: Pairs<V>, i: int)
    requires
        distinct(pairs),
        0 <= i < pairs.len(),
    ensures
        table(pairs).contains_key(pairs[i].0),
        table(pairs)[pairs[i].0] == pairs[i].1,
{
    let who = pairs[i].0;
    assert(holds_at(pairs, who, i));
    let j = choose|j: int| holds_at(pairs, who, j);
    assert(holds_at(pairs, who, j));
    assert(i == j);
}

/// A principal that occurs nowhere is unbound.
pub proof fn lemma_absent<V>(pairs: Pairs<V>, who: Seq<char>)
    requires
        forall|i: int| 0 <= i < pairs.len() ==> pairs[i].0 != who,
    ensures
        !table(pairs).contains_key(who),
{
}

/// Every bound principal occurs at some position with its value.
pub proof fn lemma_bound_occurs<V>(pairs: Pairs<V>, who: Seq<char>) -> (i: int)
    requires
        table(pairs).contains_key(who),
    ensures
        holds_at(pairs, who, i),
        table(pairs)[who] == pairs[i].1,
{
    choose|i: int| holds_at(pairs, who, i)
}

/// The empty list stands for the empty map.
pub proof fn lemma_empty<V>()
    ensures
        distinct(Seq::<(Seq<char>, V)>::empty()),
        table(Seq::<(Seq<char>, V)>::empty()) == Map::<Seq<char>, V>::empty(),
{
    assert(table(Seq::<(Seq<char>, V)>::empty()) =~= Map::<Seq<char>, V>::empty());
}

/// Appending a pair for a principal that does not occur yet binds it.
pub proof fn lemma_push<V>(pairs: Pairs<V>, who: Seq<char>, value: V)
    requires
        distinct(pairs),
        forall|i: int| 0 <= i < pairs.len() ==> pairs[i].0 != who,
    ensures
        distinct(pairs.push((who, value))),
        table(pairs.push((who, value))) == table(pairs).insert(who, value),
{
    let grown = pairs.push((who, value));
    let last = pairs.len() as int;
    assert(distinct(grown));
    assert forall|k: Seq<char>| #[trigger]
        table(grown).contains_key(k) == table(pairs).insert(who, value).contains_key(k) by {
        if table(grown).contains_key(k) {
            let i = lemma_bound_occurs(grown, k);
            if i < last {
                assert(holds_at(pairs, k, i));
            }
        }
        if table(pairs).contains_key(k) {
            let i = lemma_bound_occurs(pairs, k);
            assert(holds_at(grown, k, i));
        }
        if k == who {
            assert(holds_at(grown, k, last));
        }
    }
    assert forall|k: Seq<char>| #[trigger]
        table(grown).contains_key(k) implies table(grown)[k] == table(pairs).insert(who, value)[k] by {
        let i = lemma_bound_occurs(grown, k);
        if i < last {
            assert(holds_at(pairs, k, i));
            lemma_found(pairs, i);
        }
    }
    assert(table(grown) =~= table(pairs).insert(who, value));
}

/// Replacing the value at a position rebinds the principal found there.
pub proof fn lemma_update<V>(pairs: Pairs<V>, i: int, value: V)
    requires
        distinct(pairs),
        0 <= i < pairs.len(),
    ensures
        distinct(pairs.update(i, (pairs[i].0, value))),
        table(pairs.update(i, (pairs[i].0, value))) == table(pairs).insert(pairs[i].0, value),
{
    let who = pairs[i].0;
    let changed = pairs.update(i, (who, value));
    assert(distinct(changed));
    assert forall|k: Seq<char>| #[trigger]
        table(changed).contains_key(k) == table(pairs).insert(who, value).contains_key(k) by {
        if table(changed).contains_key(k) {
            let j = lemma_bound_occurs(changed, k);
            assert(holds_at(pairs, k, j));
        }
        if table(pairs).contains_key(k) {
            let j = lemma_bound_occurs(pairs, k);
            assert(holds_at(changed, k, j));
        }
        if k == who {
            assert(holds_at(changed, k, i));
        }
    }
    assert forall|k: Seq<char>| #[trigger]
        table(changed).contains_key(k) implies table(changed)[k] == table(pairs).insert(who, value)[k] by {
        let j = lemma_bound_occurs(changed, k);
        lemma_found(changed, j);
        if j != i {
            lemma_found(pairs, j);
        }
    }
    assert(table(changed) =~= table(pairs).insert(who, value));
}

/// Deleting a position unbinds the principal found there and no other.
pub proof fn lemma_remove<V>(pairs: Pairs<V>, i: int)
    requires
        distinct(pairs),
        0 <= i < pairs.len(),
    ensures
        distinct(pairs.remove(i)),
        table(pairs.remove(i)) == table(pairs).remove(pairs[i].0),
{
    let who = pairs[i].0;
    let rest = pairs.remove(i);
    assert forall|a: int, b: int| 0 <= a < b < rest.len() implies rest[a].0 != rest[b].0 by {
        let a0 = if a < i { a } else { a + 1 };
        let b0 = if b < i { b } else { b + 1 };
        assert(rest[a] == pairs[a0]);
        assert(rest[b] == pairs[b0]);
    }
    assert forall|k: Seq<char>| #[trigger]
        table(rest).contains_key(k) == table(pairs).remove(who).contains_key(k) by {
        if table(rest).contains_key(k) {
            let j = lemma_bound_occurs(rest, k);
            let j0 = if j < i { j } else { j + 1 };
            assert(rest[j] == pairs[j0]);
            assert(holds_at(pairs, k, j0));
            assert(k != who);
        }
        if table(pairs).remove(who).contains_key(k) {
            let j = lemma_bound_occurs(pairs, k);
            assert(j != i);
            let j1 = if j < i { j } else { j - 1 };
            assert(rest[j1] == pairs[j]);
            assert(holds_at(rest, k, j1));
        }
    }
    assert forall|k: Seq<char>| #[trigger]
        table(rest).contains_key(k) implies table(rest)[k] == table(pairs).remove(who)[k] by {
        let j = lemma_bound_occurs(rest, k);
        let j0 = if j < i { j } else { j + 1 };
        assert(rest[j] == pairs[j0]);
        lemma_found(rest, j);
        lemma_found(pairs, j0);
    }
    assert(table(rest) =~= table(pairs).remove(who));
}

} // verus!
