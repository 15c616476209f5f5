use crate::contract::REGISTER_BALANCES_ICQ_REPLY_ID;
use crate::decode::registered_query_id;
use crate::error::ErrorView;
use crate::model::{
    after_notifications, bind_query, execute, first_of_denom, has_denom, instantiate,
    query_config, query_count, query_objects, query_registered_queries, query_the_balance,
    register_addr, reply, sudo, sudo_kv_query_result, Step,
};
use crate::msg::{CoinView, ExecuteMsgView, InstantiateMsgView, ReplyView, SudoMsg};
use crate::state::{ConfigView, StoreView};
use vstd::prelude::*;

verus! {

/// `ack` is a successful acknowledgment, under the registration tag, whose payload decodes to
/// `query_id`.
pub open spec fn assigns(ack: ReplyView, query_id: u64) -> bool {
    &&& ack.id == REGISTER_BALANCES_ICQ_REPLY_ID
    &&& ack.result matches Ok(Some(payload))
    &&& registered_query_id(payload) == Some(query_id)
}

/// `id` is at exactly one position of `ids`.
pub open spec fn occurs_once(ids: Seq<u64>, id: u64) -> bool {
    exists|i: int|
        0 <= i < ids.len() && #[trigger] ids[i] == id && forall|j: int|
            0 <= j < ids.len() && #[trigger] ids[j] == id ==> j == i
}

/// Every id in the registry has a binding.
pub open spec fn registered_ids_bound(store: StoreView) -> bool {
    match store.registered_queries {
        Some(ids) => forall|i: int|
            0 <= i < ids.len() ==> store.objects.contains_key(#[trigger] ids[i]),
        None => true,
    }
}

/// Every binding belongs to an id that the registry holds.
pub open spec fn bound_ids_registered(store: StoreView) -> bool {
    forall|id: u64| #[trigger]
        store.objects.contains_key(id) ==> holds(store.registered_queries, id)
}

/// `id` is in the registry `registry`; an unwritten registry holds nothing.
pub open spec fn holds(registry: Option<Seq<u64>>, id: u64) -> bool {
    match registry {
        Some(ids) => ids.contains(id),
        None => false,
    }
}

/// An invocation that can reach an initialized contract.
pub enum Invocation {
    Execute(ExecuteMsgView),
    Reply(ReplyView),
    Sudo(SudoMsg),
}

/// What `invocation` amounts to on `store`.
pub open spec fn invoke(store: StoreView, invocation: Invocation) -> Step {
    match invocation {
        Invocation::Execute(msg) => execute(store, msg),
        Invocation::Reply(msg) => reply(store, msg),
        Invocation::Sudo(msg) => sudo(store, msg),
    }
}

/// After initialization the counter reads zero, the registry reads empty and the
/// configuration reads back what was passed in, whatever the store held before.
pub proof fn initialization_resets_counter_and_registry(
    store: StoreView,
    sender: Seq<char>,
    msg: InstantiateMsgView,
)
    ensures
        instantiate(store, sender, msg).outcome is Ok,
        query_count(instantiate(store, sender, msg).next) == Ok::<nat, ErrorView>(0),
        query_registered_queries(instantiate(store, sender, msg).next) == Ok::<
            Seq<u64>,
            ErrorView,
        >(Seq::empty()),
        query_config(instantiate(store, sender, msg).next) == Ok::<ConfigView, ErrorView>(
            ConfigView {
                owner: sender,
                asset_denom: msg.asset_denom,
                frequency: msg.frequency,
                connection_id: msg.connection_id,
            },
        ),
{
}

/// An acknowledgment that assigns `query_id` does exactly what binding `query_id` does.
pub proof fn acknowledgment_binds_its_id(store: StoreView, ack: ReplyView, query_id: u64)
    requires
        assigns(ack, query_id),
    ensures
        reply(store, ack) == bind_query(store, query_id),
{
}

/// Where a registration for `subject` is followed, with no registration in between, by an
/// acknowledgment that assigns `query_id`, and the registry did not hold `query_id` before,
/// the registry then holds `query_id` exactly once and `query_id` reads back `subject`.
pub proof fn acknowledgment_binds_registered_subject(
    store: StoreView,
    subject: Seq<char>,
    ack: ReplyView,
    query_id: u64,
)
    requires
        register_addr(store, subject).outcome is Ok,
        assigns(ack, query_id),
        reply(register_addr(store, subject).next, ack).outcome is Ok,
        !holds(store.registered_queries, query_id),
    ensures
        ({
            let after = reply(register_addr(store, subject).next, ack).next;
            &&& query_registered_queries(after) matches Ok(ids) && occurs_once(ids, query_id)
            &&& query_objects(after, query_id) == Ok::<Seq<char>, ErrorView>(subject)
        }),
{
    let pending = register_addr(store, subject).next;
    let after = reply(pending, ack).next;
    let before = store.registered_queries->0;
    let ids = after.registered_queries->0;
    assert(ids == before.push(query_id));
    assert(ids[before.len() as int] == query_id);
    assert forall|j: int| 0 <= j < ids.len() && #[trigger] ids[j] == query_id implies j
        == before.len() by {
        if j < before.len() {
            assert(before[j] == query_id);
            assert(before.contains(query_id));
        }
    }
}

/// Where two registrations, for `first` and then for `second`, precede one acknowledgment,
/// the id it assigns reads back `second`: the earlier request has lost its correlation.
pub proof fn acknowledgment_binds_latest_registration(
    store: StoreView,
    first: Seq<char>,
    second: Seq<char>,
    ack: ReplyView,
    query_id: u64,
)
    requires
        register_addr(store, first).outcome is Ok,
        assigns(ack, query_id),
        reply(
            register_addr(register_addr(store, first).next, second).next,
            ack,
        ).outcome is Ok,
    ensures
        ({
            let after = reply(
                register_addr(register_addr(store, first).next, second).next,
                ack,
            ).next;
            &&& query_objects(after, query_id) == Ok::<Seq<char>, ErrorView>(second)
            &&& first != second ==> query_objects(after, query_id) != Ok::<
                Seq<char>,
                ErrorView,
            >(first)
        }),
{
}

/// A refresh notification does the same whatever watch id it names.
pub proof fn notification_ignores_query_id(store: StoreView, a: u64, b: u64)
    ensures
        sudo_kv_query_result(store, a) == sudo_kv_query_result(store, b),
{
}

/// A run of refresh notifications on an initialized counter raises it by the length of the
/// run, one for each notification, and changes nothing else, whatever ids the run names.
pub proof fn notifications_count_one_each(store: StoreView, query_ids: Seq<u64>)
    requires
        store.count is Some,
    ensures
        after_notifications(store, query_ids) == (StoreView {
            count: Some(store.count->0 + query_ids.len()),
            ..store
        }),
    decreases query_ids.len(),
{
    if query_ids.len() > 0 {
        notifications_count_one_each(store, query_ids.drop_last());
    }
}

/// What [`first_of_denom`] finds: nothing exactly where no coin is in the denomination;
/// otherwise a coin of the list in the denomination with no such coin before it.
pub proof fn first_of_denom_is_first(coins: Seq<CoinView>, denom: Seq<char>)
    ensures
        first_of_denom(coins, denom) is None <==> !has_denom(coins, denom),
        first_of_denom(coins, denom) matches Some(coin) ==> exists|i: int|
            0 <= i < coins.len() && #[trigger] coins[i] == coin && coin.denom == denom && forall|
                j: int,
            |
                0 <= j < i ==> (#[trigger] coins[j]).denom != denom,
    decreases coins.len(),
{
    if coins.len() == 0 {
    } else if coins.first().denom == denom {
        assert(coins[0].denom == denom);
    } else {
        let rest = coins.drop_first();
        first_of_denom_is_first(rest, denom);
        assert forall|k: int| 0 <= k < rest.len() implies rest[k] == coins[k + 1] by {}
        if has_denom(rest, denom) {
            let k = choose|k: int| 0 <= k < rest.len() && #[trigger] rest[k].denom == denom;
            assert(coins[k + 1].denom == denom);
        }
        if has_denom(coins, denom) {
            let k = choose|k: int| 0 <= k < coins.len() && #[trigger] coins[k].denom == denom;
            assert(rest[k - 1].denom == denom);
        }
        if first_of_denom(rest, denom) is Some {
            let coin = first_of_denom(rest, denom)->0;
            let i = choose|i: int|
                0 <= i < rest.len() && #[trigger] rest[i] == coin && coin.denom == denom && forall|
                    j: int,
                |
                    0 <= j < i ==> (#[trigger] rest[j]).denom != denom;
            assert(coins[i + 1] == coin);
            assert forall|j: int| 0 <= j < i + 1 implies (#[trigger] coins[j]).denom != denom by {
                if j > 0 {
                    assert(rest[j - 1].denom != denom);
                }
            }
        }
    }
}

/// A balance read over a snapshot that has no coin in the configured denomination answers
/// with an explicit absence; it does not fail.
pub proof fn missing_denomination_reads_absent(store: StoreView, coins: Seq<CoinView>)
    requires
        store.config matches Some(config) && !has_denom(coins, config.asset_denom),
    ensures
        query_the_balance(store, Some(coins)) == Ok::<Option<CoinView>, ErrorView>(None),
{
    first_of_denom_is_first(coins, store.config->0.asset_denom);
}

/// A subject read for a watch id that has no binding fails with `NotFound`.
pub proof fn unbound_id_is_not_found(store: StoreView, query_id: u64)
    requires
        !store.objects.contains_key(query_id),
    ensures
        query_objects(store, query_id) == Err::<Seq<char>, ErrorView>(ErrorView::NotFound),
{
}

/// A balance read on an initialized store, for a watch id of which the subsystem holds no
/// snapshot, fails with `NotFound`.
pub proof fn missing_snapshot_is_not_found(store: StoreView)
    requires
        store.config is Some,
    ensures
        query_the_balance(store, None) == Err::<Option<CoinView>, ErrorView>(
            ErrorView::NotFound,
        ),
{
}

/// An invocation that fails leaves the store as it found it.
pub proof fn failure_commits_nothing(store: StoreView, invocation: Invocation)
    requires
        invoke(store, invocation).outcome is Err,
    ensures
        invoke(store, invocation).next == store,
{
}

/// Once written, the configuration is never changed by any invocation.
pub proof fn configuration_is_immutable(store: StoreView, invocation: Invocation)
    ensures
        invoke(store, invocation).next.config == store.config,
{
}

/// No invocation lowers the counter, and none but a refresh notification moves it.
pub proof fn counter_never_decreases(store: StoreView, invocation: Invocation)
    ensures
        match (store.count, invoke(store, invocation).next.count) {
            (Some(before), Some(after)) => before <= after <= before + 1,
            (None, None) => true,
            _ => false,
        },
        !(invocation matches Invocation::Sudo(SudoMsg::KVQueryResult { .. })) ==> invoke(
            store,
            invocation,
        ).next.count == store.count,
{
}

/// The registry is append-only and bindings are never removed: after any invocation the
/// registry is what it was, with at most one id appended, and every id that had a binding
/// still has one.
pub proof fn registry_only_grows(store: StoreView, invocation: Invocation)
    ensures
        match (store.registered_queries, invoke(store, invocation).next.registered_queries) {
            (Some(before), Some(after)) => after == before || (exists|id: u64|
                after == before.push(id)),
            (None, None) => true,
            _ => false,
        },
        forall|id: u64|
            store.objects.contains_key(id) ==> #[trigger] invoke(
                store,
                invocation,
            ).next.objects.contains_key(id),
{
    let next = invoke(store, invocation).next;
    if let (Some(before), Some(after)) = (store.registered_queries, next.registered_queries) {
        if after != before {
            assert(after == before.push(after.last()));
        }
    }
}

/// Every id in the registry has a binding: true of the empty store, established by
/// initialization where the store had been consistent, and kept by every invocation.
pub proof fn registered_ids_stay_bound(store: StoreView, invocation: Invocation)
    requires
        registered_ids_bound(store),
    ensures
        registered_ids_bound(StoreView::empty()),
        registered_ids_bound(invoke(store, invocation).next),
        forall|sender: Seq<char>, msg: InstantiateMsgView|
            registered_ids_bound(#[trigger] instantiate(store, sender, msg).next),
{
    let next = invoke(store, invocation).next;
    if let (Some(before), Some(after)) = (store.registered_queries, next.registered_queries) {
        assert forall|i: int| 0 <= i < after.len() implies next.objects.contains_key(
            #[trigger] after[i],
        ) by {
            if i < before.len() {
                assert(after[i] == before[i]);
            }
        }
    }
}

/// Every binding belongs to a registered id: true of the empty store and of a store
/// initialized from it, and kept by every invocation.
pub proof fn bound_ids_stay_registered(store: StoreView, invocation: Invocation)
    requires
        bound_ids_registered(store),
    ensures
        bound_ids_registered(StoreView::empty()),
        bound_ids_registered(invoke(store, invocation).next),
        forall|sender: Seq<char>, msg: InstantiateMsgView|
            bound_ids_registered(#[trigger] instantiate(StoreView::empty(), sender, msg).next),
{
    let next = invoke(store, invocation).next;
    assert forall|id: u64| #[trigger] next.objects.contains_key(id) implies holds(
        next.registered_queries,
        id,
    ) by {
        if let (Some(before), Some(after)) = (store.registered_queries, next.registered_queries) {
            if after != before {
                assert(after == before.push(after.last()));
                if store.objects.contains_key(id) {
                    let i = choose|i: int| 0 <= i < before.len() && before[i] == id;
                    assert(after[i] == id);
                } else {
                    assert(id == after.last());
                    assert(after[after.len() - 1] == id);
                }
            }
        }
    }
}

/// In a store where every binding belongs to a registered id, a subject read for an id
/// that the registry does not hold fails with `NotFound`.
pub proof fn unregistered_id_is_not_found(store: StoreView, query_id: u64)
    requires
        bound_ids_registered(store),
        !holds(store.registered_queries, query_id),
    ensures
        query_objects(store, query_id) == Err::<Seq<char>, ErrorView>(ErrorView::NotFound),
{
}

} // verus!
