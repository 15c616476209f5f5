use vstd::prelude::*;

verus! {

/// Parameters fixed when a contract instance is created.
#[derive(Debug, PartialEq, Eq)]
pub struct InstantiateMsg {
    /// How often, in blocks, the subsystem refreshes a watched balance.
    pub frequency: u64,
    /// Identifies the light client whose proofs back every watched balance.
    pub connection_id: String,
    /// The asset denomination that balance reads report.
    pub asset_denom: String,
}

/// Mathematical value of an [`InstantiateMsg`].
pub struct InstantiateMsgView {
    pub frequency: u64,
    pub connection_id: Seq<char>,
    pub asset_denom: Seq<char>,
}

impl View for InstantiateMsg {
    type V = InstantiateMsgView;

    open spec fn view(&self) -> InstantiateMsgView {
        InstantiateMsgView {
            frequency: self.frequency,
            connection_id: self.connection_id@,
            asset_denom: self.asset_denom@,
        }
    }
}

impl Clone for InstantiateMsg {
    fn clone(&self) -> (copy: InstantiateMsg)
        ensures
            copy@ == self@,
    {
        InstantiateMsg {
            frequency: self.frequency,
            connection_id: self.connection_id.clone(),
            asset_denom: self.asset_denom.clone(),
        }
    }
}

/// State-changing requests that any account may submit.
#[derive(Debug, PartialEq, Eq)]
pub enum ExecuteMsg {
    /// Ask the query subsystem to watch the balance of `addr`.
    RegisterAddr { addr: String },
}

/// Mathematical value of an [`ExecuteMsg`].
pub enum ExecuteMsgView {
    RegisterAddr { addr: Seq<char> },
}

impl View for ExecuteMsg {
    type V = ExecuteMsgView;

    open spec fn view(&self) -> ExecuteMsgView {
        match *self {
            ExecuteMsg::RegisterAddr { addr } => ExecuteMsgView::RegisterAddr { addr: addr@ },
        }
    }
}

impl Clone for ExecuteMsg {
    fn clone(&self) -> (copy: ExecuteMsg)
        ensures
            copy@ == self@,
    {
        match self {
            ExecuteMsg::RegisterAddr { addr } => ExecuteMsg::RegisterAddr { addr: addr.clone() },
        }
    }
}

/// Side-effect-free reads.
#[derive(Debug, Clone, Copy, PartialEq, Eq, Structural)]
pub enum QueryMsg {
    /// The proven balance behind a watch id, in the configured denomination.
    Balance { query_id: u64 },
    /// The stored configuration.
    Config {},
    /// How many refresh notifications have been received.
    Count {},
    /// The subject bound to a watch id.
    Objects { query_id: u64 },
    /// Every watch id, in the order their acknowledgments were processed.
    Queries {},
}

/// Privileged notifications sent by the query subsystem.
#[derive(Debug, Clone, Copy, PartialEq, Eq, Structural)]
pub enum SudoMsg {
    /// The proven data behind watch `query_id` was refreshed.
    KVQueryResult { query_id: u64 },
    /// Any other notification kind; accepted and ignored.
    Other,
}

/// The asynchronous answer to an outbound request.
#[derive(Debug, PartialEq, Eq)]
pub struct Reply {
    /// The correlation tag that the request carried.
    pub id: u64,
    /// On success the payload, if any, that the subsystem attached; on failure its reason.
    pub result: Result<Option<Vec<u8>>, String>,
}

/// Mathematical value of a [`Reply`].
pub struct ReplyView {
    pub id: u64,
    pub result: Result<Option<Seq<u8>>, Seq<char>>,
}

impl View for Reply {
    type V = ReplyView;

    open spec fn view(&self) -> ReplyView {
        ReplyView {
            id: self.id,
            result: match self.result {
                Ok(Some(payload)) => Ok(Some(payload@)),
                Ok(None) => Ok(None),
                Err(reason) => Err(reason@),
            },
        }
    }
}

/// An amount of one asset.
#[derive(Debug, PartialEq, Eq)]
pub struct Coin {
    pub denom: String,
    pub amount: u128,
}

/// Mathematical value of a [`Coin`].
pub struct CoinView {
    pub denom: Seq<char>,
    pub amount: nat,
}

impl View for Coin {
    type V = CoinView;

    open spec fn view(&self) -> CoinView {
        CoinView { denom: self.denom@, amount: self.amount as nat }
    }
}

impl Clone for Coin {
    fn clone(&self) -> (copy: Coin)
        ensures
            copy@ == self@,
    {
        Coin { denom: self.denom.clone(), amount: self.amount }
    }
}

/// The values of a list of coins, in order.
pub open spec fn coins_view(coins: Seq<Coin>) -> Seq<CoinView> {
    coins.map_values(|c: Coin| c@)
}

} // verus!
