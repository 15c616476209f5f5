use crate::contract::REGISTER_BALANCES_ICQ_REPLY_ID;
use crate::decode::registered_query_id;
use crate::error::ErrorView;
use crate::msg::{CoinView, ExecuteMsgView, InstantiateMsgView, QueryMsg, ReplyView, SudoMsg};
use crate::response::{
    QueryResponseView, RegisterBalanceQueryView, ReplyOn, ResponseView, SubMsgView,
};
use crate::state::{ConfigView, StoreView};
use vstd::prelude::*;

verus! {

/// What one invocation of a handler amounts to: the store to commit and what the caller gets.
pub struct Step {
    pub next: StoreView,
    pub outcome: Result<ResponseView, ErrorView>,
}

impl Step {
    /// The invocation commits `next` and asks the host for `response`.
    pub open spec fn done(next: StoreView, response: ResponseView) -> Step {
        Step { next, outcome: Ok(response) }
    }

    /// The invocation aborts with `error`; `store`, as it stood before, remains.
    pub open spec fn abort(store: StoreView, error: ErrorView) -> Step {
        Step { next: store, outcome: Err(error) }
    }
}

/// Initialization: writes the configuration, a zero counter and an empty registry. The pending
/// slot and the bindings are not touched.
pub open spec fn instantiate(store: StoreView, sender: Seq<char>, msg: InstantiateMsgView) -> Step {
    Step::done(
        StoreView {
            config: Some(
                ConfigView {
                    owner: sender,
                    asset_denom: msg.asset_denom,
                    frequency: msg.frequency,
                    connection_id: msg.connection_id,
                },
            ),
            count: Some(0),
            registered_queries: Some(Seq::empty()),
            ..store
        },
        ResponseView::empty(),
    )
}

/// The outbound request that registration emits for `addr` under `config`.
pub open spec fn registration_request(config: ConfigView, addr: Seq<char>) -> SubMsgView {
    SubMsgView {
        id: REGISTER_BALANCES_ICQ_REPLY_ID,
        msg: RegisterBalanceQueryView {
            connection_id: config.connection_id,
            addr,
            denom: config.asset_denom,
            update_period: config.frequency,
        },
        gas_limit: None,
        reply_on: ReplyOn::Success,
    }
}

/// Registration: overwrites the pending slot with `addr` and emits one request, tagged with the
/// fixed correlation tag, that calls back on success only.
pub open spec fn register_addr(store: StoreView, addr: Seq<char>) -> Step {
    match store.config {
        None => Step::abort(store, ErrorView::ConfigurationMissing),
        Some(config) => Step::done(
            StoreView { last_registered_addr: Some(addr), ..store },
            ResponseView::single(registration_request(config, addr)),
        ),
    }
}

/// Dispatch of state-changing requests.
pub open spec fn execute(store: StoreView, msg: ExecuteMsgView) -> Step {
    match msg {
        ExecuteMsgView::RegisterAddr { addr } => register_addr(store, addr),
    }
}

/// The heart of acknowledgment: binds the watch id that the subsystem assigned to whatever
/// subject the pending slot holds now, and appends the id to the registry. The pending slot
/// keeps its value.
pub open spec fn bind_query(store: StoreView, query_id: u64) -> Step {
    match (store.last_registered_addr, store.registered_queries) {
        (None, _) => Step::abort(store, ErrorView::NoPendingRegistration),
        (Some(_), None) => Step::abort(store, ErrorView::ConfigurationMissing),
        (Some(subject), Some(ids)) => Step::done(
            StoreView {
                objects: store.objects.insert(query_id, subject),
                registered_queries: Some(ids.push(query_id)),
                ..store
            },
            ResponseView::empty(),
        ),
    }
}

/// Acknowledgment: checks the correlation tag, the subsystem's verdict and the payload, in
/// that order, then binds the decoded watch id.
pub open spec fn reply(store: StoreView, msg: ReplyView) -> Step {
    if msg.id != REGISTER_BALANCES_ICQ_REPLY_ID {
        Step::abort(store, ErrorView::UnsupportedCallback { id: msg.id })
    } else {
        match msg.result {
            Err(reason) => Step::abort(store, ErrorView::SubsystemRejected { reason }),
            Ok(None) => Step::abort(store, ErrorView::DecodeError),
            Ok(Some(payload)) => match registered_query_id(payload) {
                None => Step::abort(store, ErrorView::DecodeError),
                Some(query_id) => bind_query(store, query_id),
            },
        }
    }
}

/// Notification that a watched balance was refreshed: the counter goes up by one, whatever
/// `query_id` is.
pub open spec fn sudo_kv_query_result(store: StoreView, query_id: u64) -> Step {
    match store.count {
        None => Step::abort(store, ErrorView::ConfigurationMissing),
        Some(count) => Step::done(
            StoreView { count: Some(count + 1), ..store },
            ResponseView::empty(),
        ),
    }
}

/// Dispatch of notifications; every kind but a refresh is accepted and changes nothing.
pub open spec fn sudo(store: StoreView, msg: SudoMsg) -> Step {
    match msg {
        SudoMsg::KVQueryResult { query_id } => sudo_kv_query_result(store, query_id),
        SudoMsg::Other => Step::done(store, ResponseView::empty()),
    }
}

/// The store after a run of refresh notifications, one for each id in `query_ids`.
pub open spec fn after_notifications(store: StoreView, query_ids: Seq<u64>) -> StoreView
    decreases query_ids.len(),
{
    if query_ids.len() == 0 {
        store
    } else {
        sudo_kv_query_result(
            after_notifications(store, query_ids.drop_last()),
            query_ids.last(),
        ).next
    }
}

/// Read: the stored configuration.
pub open spec fn query_config(store: StoreView) -> Result<ConfigView, ErrorView> {
    match store.config {
        Some(config) => Ok(config),
        None => Err(ErrorView::ConfigurationMissing),
    }
}

/// Read: the notification counter.
pub open spec fn query_count(store: StoreView) -> Result<nat, ErrorView> {
    match store.count {
        Some(count) => Ok(count),
        None => Err(ErrorView::ConfigurationMissing),
    }
}

/// Read: the watch registry, oldest acknowledgment first.
pub open spec fn query_registered_queries(store: StoreView) -> Result<Seq<u64>, ErrorView> {
    match store.registered_queries {
        Some(ids) => Ok(ids),
        None => Err(ErrorView::ConfigurationMissing),
    }
}

/// Read: the subject bound to `query_id`.
pub open spec fn query_objects(store: StoreView, query_id: u64) -> Result<Seq<char>, ErrorView> {
    if store.objects.contains_key(query_id) {
        Ok(store.objects[query_id])
    } else {
        Err(ErrorView::NotFound)
    }
}

/// Whether some coin of `coins` is in denomination `denom`.
pub open spec fn has_denom(coins: Seq<CoinView>, denom: Seq<char>) -> bool {
    exists|i: int| 0 <= i < coins.len() && #[trigger] coins[i].denom == denom
}

/// The first coin of `coins` in denomination `denom`, if there is one.
pub open spec fn first_of_denom(coins: Seq<CoinView>, denom: Seq<char>) -> Option<CoinView>
    decreases coins.len(),
{
    if coins.len() == 0 {
        None
    } else if coins.first().denom == denom {
        Some(coins.first())
    } else {
        first_of_denom(coins.drop_first(), denom)
    }
}

/// Read: the balance in the configured denomination, given the proven snapshot that the
/// subsystem holds for the watch id asked about (`None` where it holds none).
pub open spec fn query_the_balance(store: StoreView, snapshot: Option<Seq<CoinView>>) -> Result<
    Option<CoinView>,
    ErrorView,
> {
    match (store.config, snapshot) {
        (None, _) => Err(ErrorView::ConfigurationMissing),
        (Some(_), None) => Err(ErrorView::NotFound),
        (Some(config), Some(coins)) => Ok(first_of_denom(coins, config.asset_denom)),
    }
}

/// Dispatch of reads. `snapshot` is consulted for a balance read only.
pub open spec fn query(store: StoreView, msg: QueryMsg, snapshot: Option<Seq<CoinView>>) -> Result<
    QueryResponseView,
    ErrorView,
> {
    match msg {
        QueryMsg::Balance { .. } => match query_the_balance(store, snapshot) {
            Ok(balance) => Ok(QueryResponseView::Balance(balance)),
            Err(e) => Err(e),
        },
        QueryMsg::Config {  } => match query_config(store) {
            Ok(config) => Ok(QueryResponseView::Config(config)),
            Err(e) => Err(e),
        },
        QueryMsg::Count {  } => match query_count(store) {
            Ok(count) => Ok(QueryResponseView::Count(count)),
            Err(e) => Err(e),
        },
        QueryMsg::Objects { query_id } => match query_objects(store, query_id) {
            Ok(subject) => Ok(QueryResponseView::Objects(subject)),
            Err(e) => Err(e),
        },
        QueryMsg::Queries {  } => match query_registered_queries(store) {
            Ok(ids) => Ok(QueryResponseView::Queries(ids)),
            Err(e) => Err(e),
        },
    }
}

} // verus!
