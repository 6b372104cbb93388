//! A model of runs of exchanges against one slot, and the laws the slot
//! obeys over whole runs.
//!
//! Exchanges against a single slot are linearizable: any set of exchanges,
//! concurrent or not, takes effect in some definite total order, one at a
//! time. A run is therefore modelled as the initial contents followed by the
//! sequence of incoming values in that order. Each exchange operation's
//! contract is exactly one step of this model: the incoming value becomes
//! resident and the prior contents are displaced to the caller. A `swap` or
//! `store` contributes its argument as the incoming value; a `take`
//! contributes an empty incoming value.

use vstd::prelude::*;
use vstd::multiset::Multiset;

verus! {

/// The contents of a slot after a run of exchanges: each exchange leaves
/// exactly its incoming value resident.
pub open spec fn resident_after<T>(initial: Option<T>, incoming: Seq<Option<T>>) -> Option<T>
    decreases incoming.len(),
{
    if incoming.len() == 0 {
        initial
    } else {
        resident_after(incoming[0], incoming.skip(1))
    }
}

/// The values displaced by a run of exchanges: each exchange returns to its
/// caller exactly what was resident just before it took effect.
pub open spec fn displaced_by<T>(initial: Option<T>, incoming: Seq<Option<T>>) -> Seq<Option<T>>
    decreases incoming.len(),
{
    if incoming.len() == 0 {
        Seq::empty()
    } else {
        seq![initial] + displaced_by(incoming[0], incoming.skip(1))
    }
}

/// A run displaces exactly one value per exchange.
pub proof fn lemma_one_displaced_per_exchange<T>(initial: Option<T>, incoming: Seq<Option<T>>)
    ensures
        displaced_by(initial, incoming).len() == incoming.len(),
    decreases incoming.len(),
{
    if incoming.len() > 0 {
        lemma_one_displaced_per_exchange(incoming[0], incoming.skip(1));
    }
}

/// Single-resident law: after any nonempty run of exchanges the slot holds
/// exactly the value stored by the most recent exchange, whatever was stored
/// before it.
pub proof fn lemma_single_resident<T>(initial: Option<T>, incoming: Seq<Option<T>>)
    requires
        incoming.len() > 0,
    ensures
        resident_after(initial, incoming) == incoming.last(),
    decreases incoming.len(),
{
    if incoming.len() == 1 {
        assert(resident_after(incoming[0], incoming.skip(1)) == incoming[0]);
    } else {
        lemma_single_resident(incoming[0], incoming.skip(1));
        assert(incoming.skip(1).last() == incoming.last());
    }
}

/// Predecessor law: every exchange in a run displaces exactly the value
/// stored by the exchange linearized immediately before it, and the first
/// displaces the initial contents.
pub proof fn lemma_displaced_is_predecessor<T>(
    initial: Option<T>,
    incoming: Seq<Option<T>>,
    i: int,
)
    requires
        0 <= i < incoming.len(),
    ensures
        displaced_by(initial, incoming).len() == incoming.len(),
        displaced_by(initial, incoming)[i] == if i == 0 {
            initial
        } else {
            incoming[i - 1]
        },
    decreases incoming.len(),
{
    lemma_one_displaced_per_exchange(initial, incoming);
    if i > 0 {
        lemma_displaced_is_predecessor(incoming[0], incoming.skip(1), i - 1);
        assert(displaced_by(initial, incoming)[i] == displaced_by(incoming[0], incoming.skip(1))[i
            - 1]);
    }
}

/// Ownership round-trip law: a slot constructed holding `v` and then asked
/// to take gives `v` back and is left empty.
pub proof fn lemma_ownership_round_trip<T>(v: T)
    ensures
        displaced_by(Some(v), seq![Option::<T>::None]) == seq![Some(v)],
        resident_after(Some(v), seq![Option::<T>::None]) is None,
{
    let run = seq![Option::<T>::None];
    assert(run[0] is None);
    assert(run.skip(1).len() == 0);
    assert(resident_after(run[0], run.skip(1)) == run[0]);
    assert(displaced_by(run[0], run.skip(1)) == Seq::<Option<T>>::empty());
    assert(displaced_by(Some(v), run) =~= seq![Some(v)]);
}

/// True-predecessor law: a slot constructed holding `v1`, asked to exchange
/// in `v2` and then to take, displaces first `v1` and then `v2`, and is left
/// empty.
pub proof fn lemma_exchange_returns_predecessor<T>(v1: T, v2: T)
    ensures
        displaced_by(Some(v1), seq![Some(v2), Option::<T>::None]) == seq![Some(v1), Some(v2)],
        resident_after(Some(v1), seq![Some(v2), Option::<T>::None]) is None,
{
    let run = seq![Some(v2), Option::<T>::None];
    assert(run.skip(1) =~= seq![Option::<T>::None]);
    lemma_ownership_round_trip(v2);
    assert(seq![Some(v1)] + seq![Some(v2)] =~= seq![Some(v1), Some(v2)]);
}

/// A run of `n` takes: every incoming value is empty.
pub open spec fn takes<T>(n: nat) -> Seq<Option<T>> {
    Seq::new(n, |i: int| Option::<T>::None)
}

/// Mutual-exclusivity law: in any linearization of takes racing for a single
/// resident value, the take linearized first receives the value and every
/// other take receives nothing — exactly one caller ever obtains it.
pub proof fn lemma_contended_takes<T>(v: T, n: nat)
    requires
        n >= 1,
    ensures
        displaced_by(Some(v), takes::<T>(n)).len() == n,
        displaced_by(Some(v), takes::<T>(n))[0] == Some(v),
        forall|i: int| 1 <= i < n ==> #[trigger] (displaced_by(Some(v), takes::<T>(n))[i]) is None,
        resident_after(Some(v), takes::<T>(n)) is None,
{
    let run = takes::<T>(n);
    lemma_one_displaced_per_exchange(Some(v), run);
    lemma_single_resident(Some(v), run);
    lemma_takes_from_empty::<T>((n - 1) as nat);
    assert(run.skip(1) =~= takes::<T>((n - 1) as nat));
    assert(displaced_by(Some(v), run) == seq![Some(v)] + displaced_by(
        Option::<T>::None,
        run.skip(1),
    ));
}

/// Takes against an empty slot displace nothing: every result is empty.
pub proof fn lemma_takes_from_empty<T>(n: nat)
    ensures
        displaced_by(Option::<T>::None, takes::<T>(n)).len() == n,
        forall|i: int|
            0 <= i < n ==> #[trigger] (displaced_by(Option::<T>::None, takes::<T>(n))[i]) is None,
    decreases n,
{
    let run = takes::<T>(n);
    lemma_one_displaced_per_exchange(Option::<T>::None, run);
    if n > 0 {
        lemma_takes_from_empty::<T>((n - 1) as nat);
        assert(run.skip(1) =~= takes::<T>((n - 1) as nat));
        assert(displaced_by(Option::<T>::None, run) == seq![Option::<T>::None] + displaced_by(
            Option::<T>::None,
            run.skip(1),
        ));
    }
}

/// The multiset an optional value contributes: one value, or nothing.
pub open spec fn value_of<T>(v: Option<T>) -> Multiset<T> {
    match v {
        Some(x) => Multiset::empty().insert(x),
        None => Multiset::empty(),
    }
}

/// The multiset of plain values present in a sequence of optional values.
pub open spec fn present_values<T>(results: Seq<Option<T>>) -> Multiset<T>
    decreases results.len(),
{
    if results.len() == 0 {
        Multiset::empty()
    } else {
        value_of(results[0]).add(present_values(results.skip(1)))
    }
}

/// Prepending one result contributes its value to what is present.
pub proof fn lemma_present_values_cons<T>(first: Option<T>, rest: Seq<Option<T>>)
    ensures
        present_values(seq![first] + rest) == value_of(first).add(present_values(rest)),
{
    let whole = seq![first] + rest;
    assert(whole[0] == first);
    assert(whole.skip(1) =~= rest);
}

/// Conservation law: over any run of exchanges, what comes back out — the
/// displaced values together with what is left resident — is exactly what
/// went in: the initial contents together with the incoming values. No value
/// is duplicated and none is lost.
pub proof fn lemma_exchange_conservation<T>(initial: Option<T>, incoming: Seq<Option<T>>)
    ensures
        present_values(displaced_by(initial, incoming)).add(
            value_of(resident_after(initial, incoming)),
        ) == value_of(initial).add(present_values(incoming)),
    decreases incoming.len(),
{
    if incoming.len() == 0 {
        assert(present_values(displaced_by(initial, incoming)).add(
            value_of(resident_after(initial, incoming)),
        ) =~= value_of(initial).add(present_values(incoming)));
    } else {
        let rest = incoming.skip(1);
        lemma_exchange_conservation(incoming[0], rest);
        lemma_present_values_cons(initial, displaced_by(incoming[0], rest));
        assert(present_values(displaced_by(initial, incoming)).add(
            value_of(resident_after(initial, incoming)),
        ) =~= value_of(initial).add(present_values(incoming)));
    }
}

/// The values present in a run that inserts each of `values` in turn are
/// exactly `values`.
pub proof fn lemma_present_values_of_inserts<T>(values: Seq<T>)
    ensures
        present_values(values.map_values(|v: T| Some(v))) == values.to_multiset(),
    decreases values.len(),
{
    broadcast use vstd::seq_lib::group_to_multiset_ensures;

    let incoming = values.map_values(|v: T| Some(v));
    if values.len() == 0 {
        vstd::multiset::lemma_multiset_empty_len(values.to_multiset());
        assert(values.to_multiset() =~= Multiset::<T>::empty());
    } else {
        lemma_present_values_of_inserts(values.skip(1));
        assert(incoming.skip(1) =~= values.skip(1).map_values(|v: T| Some(v)));
        assert(values.remove(0) =~= values.skip(1));
        assert(values.to_multiset().contains(values[0]));
        assert(present_values(incoming) =~= values.to_multiset());
    }
}

/// No-leak, no-double-free law: for swaps each inserting a value into a slot
/// that started empty, the values the swaps displace together with the value
/// left resident afterward are exactly the inserted values — no duplicates,
/// no omissions.
pub proof fn lemma_no_leak_no_double_free<T>(inserted: Seq<T>)
    ensures
        present_values(displaced_by(Option::<T>::None, inserted.map_values(|v: T| Some(v)))).add(
            value_of(resident_after(Option::<T>::None, inserted.map_values(|v: T| Some(v)))),
        ) == inserted.to_multiset(),
{
    let incoming = inserted.map_values(|v: T| Some(v));
    lemma_exchange_conservation(Option::<T>::None, incoming);
    lemma_present_values_of_inserts(inserted);
    assert(value_of(Option::<T>::None).add(present_values(incoming)) =~= inserted.to_multiset());
}

} // verus!
