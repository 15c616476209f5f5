use std::collections::HashMap;
use vstd::prelude::*;

verus! {

/// Parameters that govern how registration requests are built. Written once, at initialization.
#[derive(Debug, PartialEq, Eq)]
pub struct Config {
    /// The account that created the contract instance.
    pub owner: String,
    /// The asset denomination that balance reads report.
    pub asset_denom: String,
    /// How often, in blocks, the subsystem refreshes a watched balance.
    pub frequency: u64,
    /// Identifies the light client whose proofs back every watched balance.
    pub connection_id: String,
}

/// Mathematical value of a [`Config`].
pub struct ConfigView {
    pub owner: Seq<char>,
    pub asset_denom: Seq<char>,
    pub frequency: u64,
    pub connection_id: Seq<char>,
}

impl View for Config {
    type V = ConfigView;

    open spec fn view(&self) -> ConfigView {
        ConfigView {
            owner: self.owner@,
            asset_denom: self.asset_denom@,
            frequency: self.frequency,
            connection_id: self.connection_id@,
        }
    }
}

impl Clone for Config {
    fn clone(&self) -> (copy: Config)
        ensures
            copy@ == self@,
    {
        Config {
            owner: self.owner.clone(),
            asset_denom: self.asset_denom.clone(),
            frequency: self.frequency,
            connection_id: self.connection_id.clone(),
        }
    }
}

/// Everything the contract keeps between invocations.
///
/// Each handler receives the store as it stood when the invocation began and leaves in it
/// what must be committed. A slot that was never written is `None`.
#[derive(Debug, PartialEq, Eq)]
pub struct Store {
    /// The configuration record.
    pub config: Option<Config>,
    /// Number of refresh notifications received so far.
    pub count: Option<u64>,
    /// Subject of the most recently submitted registration request.
    pub last_registered_addr: Option<String>,
    /// Watch ids in the order their acknowledgments were processed.
    pub registered_queries: Option<Vec<u64>>,
    /// The subject bound to each watch id.
    pub objects: HashMap<u64, String>,
}

/// Mathematical value of a [`Store`]: the counter as a natural number, text as sequences of
/// characters, the bindings as a map.
pub struct StoreView {
    pub config: Option<ConfigView>,
    pub count: Option<nat>,
    pub last_registered_addr: Option<Seq<char>>,
    pub registered_queries: Option<Seq<u64>>,
    pub objects: Map<u64, Seq<char>>,
}

/// The bindings of a store, each subject taken as the characters it holds.
pub open spec fn bindings_view(objects: Map<u64, String>) -> Map<u64, Seq<char>> {
    objects.map_values(|subject: String| subject@)
}

impl View for Store {
    type V = StoreView;

    open spec fn view(&self) -> StoreView {
        StoreView {
            config: match self.config {
                Some(config) => Some(config@),
                None => None,
            },
            count: match self.count {
                Some(count) => Some(count as nat),
                None => None,
            },
            last_registered_addr: match self.last_registered_addr {
                Some(subject) => Some(subject@),
                None => None,
            },
            registered_queries: match self.registered_queries {
                Some(ids) => Some(ids@),
                None => None,
            },
            objects: bindings_view(self.objects@),
        }
    }
}

impl StoreView {
    /// The store of a contract instance that was never initialized.
    pub open spec fn empty() -> StoreView {
        StoreView {
            config: None,
            count: None,
            last_registered_addr: None,
            registered_queries: None,
            objects: Map::empty(),
        }
    }
}

impl Store {
    /// A store in which no slot was ever written.
    pub fn new() -> (store: Store)
        ensures
            store@ == StoreView::empty(),
    {
        let store = Store {
            config: None,
            count: None,
            last_registered_addr: None,
            registered_queries: None,
            objects: HashMap::new(),
        };
        assert(store@.objects =~= Map::empty());
        store
    }
}

impl Clone for Store {
    fn clone(&self) -> (copy: Store)
        ensures
            copy@ == self@,
    {
        Store {
            config: match &self.config {
                Some(config) => Some(config.clone()),
                None => None,
            },
            count: self.count,
            last_registered_addr: match &self.last_registered_addr {
                Some(subject) => Some(subject.clone()),
                None => None,
            },
            registered_queries: match &self.registered_queries {
                Some(ids) => Some(ids.clone()),
                None => None,
            },
            objects: self.objects.clone(),
        }
    }
}

} // verus!
