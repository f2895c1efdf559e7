use vstd::prelude::*;

use crate::db::{create_step, ids_ascending, DBAccessor, StorePort, TodoView};
use crate::error::Error;
use crate::handler::{
    creation_outcome, is_items_reply, is_server_error, lookup_step, responses_view, Reply,
};
use crate::http::{HttpClient, LookupPort};

verus! {

/// A run of creations: `states[k]` is what the store held before the `k`-th
/// creation, which was asked for `names[k]` and answered with `created[k]`.
pub open spec fn creation_run(
    names: Seq<Seq<char>>,
    created: Seq<TodoView>,
    states: Seq<Seq<TodoView>>,
) -> bool {
    &&& states.len() == names.len() + 1
    &&& created.len() == names.len()
    &&& forall|k: int|
        0 <= k < names.len() ==> #[trigger] create_step(
            states[k],
            names[k],
            created[k],
            states[k + 1],
        )
}

proof fn lemma_run_prefix(
    names: Seq<Seq<char>>,
    created: Seq<TodoView>,
    states: Seq<Seq<TodoView>>,
    k: int,
)
    requires
        creation_run(names, created, states),
        states[0] == Seq::<TodoView>::empty(),
        0 <= k <= names.len(),
    ensures
        states[k] == created.take(k),
        ids_ascending(states[k]),
    decreases k,
{
    if k > 0 {
        lemma_run_prefix(names, created, states, k - 1);
        let j = k - 1;
        assert(create_step(states[j], names[j], created[j], states[j + 1]));
        assert(states[k] =~= created.take(k));
    } else {
        assert(states[0] =~= created.take(0));
    }
}

/// After creations with the fact texts `names` on an empty store, a listing
/// shows exactly one unchecked item per creation, in ascending id order, the
/// `i`-th named `names[i]`.
pub proof fn lemma_creates_then_list(
    names: Seq<Seq<char>>,
    created: Seq<TodoView>,
    states: Seq<Seq<TodoView>>,
    listed: Reply,
)
    requires
        creation_run(names, created, states),
        states[0] == Seq::<TodoView>::empty(),
        is_items_reply(listed, states[names.len() as int]),
    ensures
        ({
            let shown = responses_view(listed.body->Items_0@);
            &&& shown.len() == names.len()
            &&& ids_ascending(shown)
            &&& forall|i: int|
                0 <= i < names.len() ==> (#[trigger] shown[i]).name == names[i] && !shown[i].checked
                    && shown[i] == created[i]
        }),
{
    let n = names.len() as int;
    lemma_run_prefix(names, created, states, n);
    assert forall|i: int| 0 <= i < n implies (#[trigger] states[n][i]).name == names[i]
        && !states[n][i].checked && states[n][i] == created[i] by {
        assert(create_step(states[i], names[i], created[i], states[i + 1]));
    }
}

/// An item that a creation returned is shown, with its id and name, by a
/// listing of the store that the creation left.
pub proof fn lemma_round_trip(
    before: Seq<TodoView>,
    name: Seq<char>,
    t: TodoView,
    after: Seq<TodoView>,
    listed: Reply,
)
    requires
        create_step(before, name, t, after),
        is_items_reply(listed, after),
    ensures
        exists|i: int|
            0 <= i < responses_view(listed.body->Items_0@).len() && #[trigger] responses_view(
                listed.body->Items_0@,
            )[i].id == t.id && responses_view(listed.body->Items_0@)[i].name == name,
{
    let shown = responses_view(listed.body->Items_0@);
    assert(shown[before.len() as int] == t);
}

/// Two creations in a row, the first of which fetched `f1` and then failed in
/// the store: the first reply is the server error and shows no item, `f1` was
/// handed to the store once and never again, and the second creation hands the
/// store the fact that it fetched itself.
pub proof fn lemma_failed_write_then_retry<H: HttpClient, D: DBAccessor>(
    c0: LookupPort<H>,
    c1: LookupPort<H>,
    c2: LookupPort<H>,
    d0: StorePort<D>,
    d1: StorePort<D>,
    d2: StorePort<D>,
    r1: Reply,
    r2: Reply,
    f1: Seq<char>,
    e: Error,
)
    requires
        lookup_step(c0, c1),
        creation_outcome(c1.answers().last(), d0, d1, r1),
        lookup_step(c1, c2),
        creation_outcome(c2.answers().last(), d1, d2, r2),
        c1.answers().last() == Ok::<Seq<char>, Error>(f1),
        d1.created().last() == Err::<TodoView, Error>(e),
    ensures
        is_server_error(r1),
        d1.requested() == d0.requested().push(f1),
        c2.answers().last() matches Ok(f2) ==> d2.requested() == d0.requested().push(f1).push(f2),
        c2.answers().last() is Err ==> d2.requested() == d0.requested().push(f1),
{
}

/// A listing of an empty store is an array with no items, not an absent body.
pub proof fn lemma_empty_listing(listed: Reply)
    requires
        is_items_reply(listed, Seq::<TodoView>::empty()),
    ensures
        listed.body is Items,
        listed.body->Items_0@.len() == 0,
{
}

} // verus!
