use crate::msg::{Coin, CoinView};
use crate::state::{Config, ConfigView};
use vstd::prelude::*;

verus! {

/// On which outcomes of an outbound request the subsystem calls back.
#[derive(Debug, Clone, Copy, PartialEq, Eq, Structural)]
pub enum ReplyOn {
    Always,
    Error,
    Success,
    Never,
}

/// A request that the query subsystem watch one account's balance in one denomination.
#[derive(Debug, PartialEq, Eq)]
pub struct RegisterBalanceQuery {
    /// Identifies the light client that proves the results.
    pub connection_id: String,
    /// The account to watch.
    pub addr: String,
    /// The denomination to watch.
    pub denom: String,
    /// How often, in blocks, the result is refreshed.
    pub update_period: u64,
}

/// Mathematical value of a [`RegisterBalanceQuery`].
pub struct RegisterBalanceQueryView {
    pub connection_id: Seq<char>,
    pub addr: Seq<char>,
    pub denom: Seq<char>,
    pub update_period: u64,
}

impl View for RegisterBalanceQuery {
    type V = RegisterBalanceQueryView;

    open spec fn view(&self) -> RegisterBalanceQueryView {
        RegisterBalanceQueryView {
            connection_id: self.connection_id@,
            addr: self.addr@,
            denom: self.denom@,
            update_period: self.update_period,
        }
    }
}

/// An outbound request together with its correlation tag and callback policy.
#[derive(Debug, PartialEq, Eq)]
pub struct SubMsg {
    /// The tag that the acknowledgment will carry.
    pub id: u64,
    /// The request itself.
    pub msg: RegisterBalanceQuery,
    /// Upper bound on the gas the request may use; `None` for no bound.
    pub gas_limit: Option<u64>,
    /// When the subsystem calls back.
    pub reply_on: ReplyOn,
}

/// Mathematical value of a [`SubMsg`].
pub struct SubMsgView {
    pub id: u64,
    pub msg: RegisterBalanceQueryView,
    pub gas_limit: Option<u64>,
    pub reply_on: ReplyOn,
}

impl View for SubMsg {
    type V = SubMsgView;

    open spec fn view(&self) -> SubMsgView {
        SubMsgView {
            id: self.id,
            msg: self.msg@,
            gas_limit: self.gas_limit,
            reply_on: self.reply_on,
        }
    }
}

/// What a handler asks the host to do once the invocation commits.
#[derive(Debug, PartialEq, Eq)]
pub struct Response {
    /// Outbound requests, in the order they are to be sent.
    pub messages: Vec<SubMsg>,
}

/// Mathematical value of a [`Response`].
pub struct ResponseView {
    pub messages: Seq<SubMsgView>,
}

impl View for Response {
    type V = ResponseView;

    open spec fn view(&self) -> ResponseView {
        ResponseView { messages: self.messages@.map_values(|m: SubMsg| m@) }
    }
}

impl ResponseView {
    /// The response that asks for nothing.
    pub open spec fn empty() -> ResponseView {
        ResponseView { messages: Seq::empty() }
    }

    /// The response that asks for exactly one outbound request.
    pub open spec fn single(message: SubMsgView) -> ResponseView {
        ResponseView { messages: seq![message] }
    }
}

impl Response {
    /// A response that asks for nothing.
    pub fn new() -> (response: Response)
        ensures
            response@ == ResponseView::empty(),
    {
        let response = Response { messages: Vec::new() };
        assert(response@.messages =~= Seq::empty());
        response
    }

    /// This response with `message` added behind the requests it already holds.
    pub fn add_submessage(self, message: SubMsg) -> (response: Response)
        ensures
            response@.messages == self@.messages.push(message@),
    {
        let mut messages = self.messages;
        messages.push(message);
        let response = Response { messages };
        assert(response@.messages =~= self@.messages.push(message@));
        response
    }
}

/// The answer to a read.
#[derive(Debug, PartialEq, Eq)]
pub enum QueryResponse {
    /// The balance entry in the configured denomination, or `None` where the snapshot has none.
    Balance(Option<Coin>),
    /// The stored configuration.
    Config(Config),
    /// The notification counter.
    Count(u64),
    /// The subject bound to the watch id asked for.
    Objects(String),
    /// The watch registry.
    Queries(Vec<u64>),
}

/// Mathematical value of a [`QueryResponse`].
pub enum QueryResponseView {
    Balance(Option<CoinView>),
    Config(ConfigView),
    Count(nat),
    Objects(Seq<char>),
    Queries(Seq<u64>),
}

impl View for QueryResponse {
    type V = QueryResponseView;

    open spec fn view(&self) -> QueryResponseView {
        match *self {
            QueryResponse::Balance(Some(coin)) => QueryResponseView::Balance(Some(coin@)),
            QueryResponse::Balance(None) => QueryResponseView::Balance(None),
            QueryResponse::Config(config) => QueryResponseView::Config(config@),
            QueryResponse::Count(count) => QueryResponseView::Count(count as nat),
            QueryResponse::Objects(subject) => QueryResponseView::Objects(subject@),
            QueryResponse::Queries(ids) => QueryResponseView::Queries(ids@),
        }
    }
}

} // verus!
