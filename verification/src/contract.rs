use crate::decode::parse_registration_response;
use crate::error::{result_view, ContractError, ErrorView};
use crate::model;
use crate::msg::{
    coins_view, Coin, CoinView, ExecuteMsg, InstantiateMsg, QueryMsg, Reply, SudoMsg,
};
use crate::response::{QueryResponse, RegisterBalanceQuery, ReplyOn, Response, SubMsg};
use crate::state::{Config, Store, StoreView};
use vstd::prelude::*;

verus! {

broadcast use vstd::std_specs::hash::group_hash_axioms;

/// Correlation tag carried by every registration request and echoed by its acknowledgment.
pub const REGISTER_BALANCES_ICQ_REPLY_ID: u64 = 1;

/// Initializes the store: writes the configuration, with `sender` as owner, a zero counter
/// and an empty registry. Never fails and emits nothing.
///
/// The pending-registration slot and the bindings keep whatever they held.
pub fn instantiate(store: &mut Store, sender: String, msg: InstantiateMsg) -> (r: Result<
    Response,
    ContractError,
>)
    ensures
        final(store)@ == model::instantiate(old(store)@, sender@, msg@).next,
        result_view(r) == model::instantiate(old(store)@, sender@, msg@).outcome,
{
    store.config = Some(
        Config {
            owner: sender,
            asset_denom: msg.asset_denom,
            frequency: msg.frequency,
            connection_id: msg.connection_id,
        },
    );
    store.count = Some(0);
    store.registered_queries = Some(Vec::new());
    Ok(Response::new())
}

/// Dispatches a state-changing request to its handler.
pub fn execute(store: &mut Store, msg: ExecuteMsg) -> (r: Result<Response, ContractError>)
    ensures
        final(store)@ == model::execute(old(store)@, msg@).next,
        result_view(r) == model::execute(old(store)@, msg@).outcome,
{
    match msg {
        ExecuteMsg::RegisterAddr { addr } => register_addr(store, addr),
    }
}

/// Submits a request to watch the balance of `addr`.
///
/// Overwrites the pending-registration slot with `addr`, whatever it held, and emits one
/// request built from the configuration, tagged [`REGISTER_BALANCES_ICQ_REPLY_ID`] and
/// calling back on success only. Fails with `ConfigurationMissing`, and changes nothing,
/// where the store was never initialized. `addr` is taken as it comes.
pub fn register_addr(store: &mut Store, addr: String) -> (r: Result<Response, ContractError>)
    ensures
        final(store)@ == model::register_addr(old(store)@, addr@).next,
        result_view(r) == model::register_addr(old(store)@, addr@).outcome,
{
    let request = match &store.config {
        Some(config) => RegisterBalanceQuery {
            connection_id: config.connection_id.clone(),
            addr: addr.clone(),
            denom: config.asset_denom.clone(),
            update_period: config.frequency,
        },
        None => {
            return Err(ContractError::ConfigurationMissing);
        },
    };
    store.last_registered_addr = Some(addr);
    let response = Response::new().add_submessage(
        SubMsg {
            id: REGISTER_BALANCES_ICQ_REPLY_ID,
            msg: request,
            gas_limit: None,
            reply_on: ReplyOn::Success,
        },
    );
    assert(response@.messages =~= seq![
        model::registration_request(old(store)@.config->0, addr@),
    ]);
    Ok(response)
}

/// Dispatches a read to its handler and wraps the answer.
///
/// `snapshot` is what the query subsystem holds, at the time of the read, for the watch id
/// of a balance read: the coins of its proven snapshot, or `None` where it holds none. Other
/// reads ignore it.
pub fn query(store: &Store, msg: QueryMsg, snapshot: Option<Vec<Coin>>) -> (r: Result<
    QueryResponse,
    ContractError,
>)
    ensures
        result_view(r) == model::query(store@, msg, snapshot_view(snapshot)),
{
    match msg {
        QueryMsg::Balance { .. } => match query_the_balance(store, snapshot) {
            Ok(balance) => Ok(QueryResponse::Balance(balance)),
            Err(e) => Err(e),
        },
        QueryMsg::Config {  } => match query_config(store) {
            Ok(config) => Ok(QueryResponse::Config(config)),
            Err(e) => Err(e),
        },
        QueryMsg::Count {  } => match query_count(store) {
            Ok(count) => Ok(QueryResponse::Count(count)),
            Err(e) => Err(e),
        },
        QueryMsg::Objects { query_id } => match query_objects(store, query_id) {
            Ok(subject) => Ok(QueryResponse::Objects(subject)),
            Err(e) => Err(e),
        },
        QueryMsg::Queries {  } => match query_registered_queries(store) {
            Ok(ids) => Ok(QueryResponse::Queries(ids)),
            Err(e) => Err(e),
        },
    }
}

/// Reads the watch registry: every watch id, oldest acknowledgment first.
pub fn query_registered_queries(store: &Store) -> (r: Result<Vec<u64>, ContractError>)
    ensures
        result_view(r) == model::query_registered_queries(store@),
{
    match &store.registered_queries {
        Some(ids) => Ok(ids.clone()),
        None => Err(ContractError::ConfigurationMissing),
    }
}

/// Reads the subject bound to `query_id`; `NotFound` where the id has no binding.
pub fn query_objects(store: &Store, query_id: u64) -> (r: Result<String, ContractError>)
    ensures
        result_view(r) == model::query_objects(store@, query_id),
{
    match store.objects.get(&query_id) {
        Some(subject) => Ok(subject.clone()),
        None => Err(ContractError::NotFound),
    }
}

/// The value of a counter read: the counter as a natural number.
pub open spec fn count_result_view(r: Result<u64, ContractError>) -> Result<nat, ErrorView> {
    match r {
        Ok(count) => Ok(count as nat),
        Err(error) => Err(error@),
    }
}

/// Reads the notification counter.
pub fn query_count(store: &Store) -> (r: Result<u64, ContractError>)
    ensures
        count_result_view(r) == model::query_count(store@),
{
    match store.count {
        Some(count) => Ok(count),
        None => Err(ContractError::ConfigurationMissing),
    }
}

/// Reads the stored configuration.
pub fn query_config(store: &Store) -> (r: Result<Config, ContractError>)
    ensures
        result_view(r) == model::query_config(store@),
{
    match &store.config {
        Some(config) => Ok(config.clone()),
        None => Err(ContractError::ConfigurationMissing),
    }
}

/// Dispatches a notification from the query subsystem. A refresh goes to
/// [`sudo_kv_query_result`]; every other kind is accepted and changes nothing.
pub fn sudo(store: &mut Store, msg: SudoMsg) -> (r: Result<Response, ContractError>)
    requires
        msg is KVQueryResult ==> counter_has_room(old(store)@),
    ensures
        final(store)@ == model::sudo(old(store)@, msg).next,
        result_view(r) == model::sudo(old(store)@, msg).outcome,
{
    match msg {
        SudoMsg::KVQueryResult { query_id } => sudo_kv_query_result(store, query_id),
        SudoMsg::Other => Ok(Response::new()),
    }
}

/// The value of the snapshot handed to a balance read.
pub open spec fn snapshot_view(snapshot: Option<Vec<Coin>>) -> Option<Seq<CoinView>> {
    match snapshot {
        Some(coins) => Some(coins_view(coins@)),
        None => None,
    }
}

/// The value of a balance read.
pub open spec fn balance_result_view(r: Result<Option<Coin>, ContractError>) -> Result<
    Option<CoinView>,
    ErrorView,
> {
    match r {
        Ok(Some(coin)) => Ok(Some(coin@)),
        Ok(None) => Ok(None),
        Err(error) => Err(error@),
    }
}

/// Reads the balance in the configured denomination out of `snapshot`, the coins of the
/// proven snapshot that the query subsystem holds for the watch id asked about.
///
/// `ConfigurationMissing` where the store was never initialized; otherwise `NotFound` where
/// `snapshot` is `None`, that is, where the subsystem holds no snapshot for the id; otherwise
/// the first coin in the configured denomination, or `None` where the snapshot has no such
/// coin, which is an answer and no failure.
pub fn query_the_balance(store: &Store, snapshot: Option<Vec<Coin>>) -> (r: Result<
    Option<Coin>,
    ContractError,
>)
    ensures
        balance_result_view(r) == model::query_the_balance(store@, snapshot_view(snapshot)),
{
    let config = match &store.config {
        Some(config) => config,
        None => {
            return Err(ContractError::ConfigurationMissing);
        },
    };
    let coins = match snapshot {
        Some(coins) => coins,
        None => {
            return Err(ContractError::NotFound);
        },
    };
    let ghost all = coins_view(coins@);
    assert(all.skip(0) =~= all);
    let mut i: usize = 0;
    while i < coins.len()
        invariant
            i <= coins.len(),
            all == coins_view(coins@),
            snapshot_view(snapshot) == Some(all),
            store@.config == Some(config@),
            model::first_of_denom(all, config.asset_denom@) == model::first_of_denom(
                all.skip(i as int),
                config.asset_denom@,
            ),
        decreases coins.len() - i,
    {
        if coins[i].denom == config.asset_denom {
            assert(all.skip(i as int).first() == coins[i as int]@);
            return Ok(Some(coins[i].clone()));
        }
        assert(all.skip(i as int).drop_first() =~= all.skip(i + 1));
        i = i + 1;
    }
    Ok(None)
}

/// Whether the counter can take one more notification without leaving the range of `u64`.
pub open spec fn counter_has_room(store: StoreView) -> bool {
    match store.count {
        Some(count) => count < u64::MAX,
        None => true,
    }
}

/// Handles the notification that the proven data behind watch `query_id` was refreshed.
///
/// The counter goes up by exactly one. `query_id` plays no part: it need not be a known
/// watch id, and nothing is read or stored for it. Fails with `ConfigurationMissing`
/// where the counter was never initialized.
///
/// The counter is a `u64`: a caller must not deliver a notification to a counter that
/// already stands at `u64::MAX`.
#[allow(unused_variables)]
pub fn sudo_kv_query_result(store: &mut Store, query_id: u64) -> (r: Result<
    Response,
    ContractError,
>)
    requires
        counter_has_room(old(store)@),
    ensures
        final(store)@ == model::sudo_kv_query_result(old(store)@, query_id).next,
        result_view(r) == model::sudo_kv_query_result(old(store)@, query_id).outcome,
{
    match store.count {
        Some(count) => {
            store.count = Some(count + 1);
            Ok(Response::new())
        },
        None => Err(ContractError::ConfigurationMissing),
    }
}

/// Binds `query_id`, the watch id that the subsystem assigned, to the subject in the
/// pending-registration slot and appends it to the registry.
///
/// Fails with `NoPendingRegistration` where the pending slot is empty and with
/// `ConfigurationMissing` where the registry was never initialized. The pending slot is left
/// as it is, so a later acknowledgment binds to the same subject unless a new registration
/// came in between.
pub fn bind_query(store: &mut Store, query_id: u64) -> (r: Result<Response, ContractError>)
    ensures
        final(store)@ == model::bind_query(old(store)@, query_id).next,
        result_view(r) == model::bind_query(old(store)@, query_id).outcome,
{
    let subject = match &store.last_registered_addr {
        Some(subject) => subject.clone(),
        None => {
            return Err(ContractError::NoPendingRegistration);
        },
    };
    match &mut store.registered_queries {
        Some(ids) => {
            ids.push(query_id);
        },
        None => {
            return Err(ContractError::ConfigurationMissing);
        },
    }
    store.objects.insert(query_id, subject);
    assert(final(store)@.objects =~= old(store)@.objects.insert(query_id, subject@));
    Ok(Response::new())
}

/// Handles the asynchronous answer to a registration request.
///
/// In order: a correlation tag other than [`REGISTER_BALANCES_ICQ_REPLY_ID`] fails with
/// `UnsupportedCallback`; a failure reported by the subsystem fails with `SubsystemRejected`
/// and carries its reason; an absent or undecodable payload fails with `DecodeError`;
/// otherwise the decoded watch id is bound as [`bind_query`] describes.
pub fn reply(store: &mut Store, msg: Reply) -> (r: Result<Response, ContractError>)
    ensures
        final(store)@ == model::reply(old(store)@, msg@).next,
        result_view(r) == model::reply(old(store)@, msg@).outcome,
{
    if msg.id != REGISTER_BALANCES_ICQ_REPLY_ID {
        return Err(ContractError::UnsupportedCallback { id: msg.id });
    }
    match msg.result {
        Err(reason) => Err(ContractError::SubsystemRejected { reason }),
        Ok(None) => Err(ContractError::DecodeError),
        Ok(Some(payload)) => match parse_registration_response(payload.as_slice()) {
            None => Err(ContractError::DecodeError),
            Some(query_id) => bind_query(store, query_id),
        },
    }
}

} // verus!
