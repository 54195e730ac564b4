//! The connection records that outlive a run: which bridges are known,
//! and under which credential.

use crate::hue_bridge::{HueBridge, HueBridgeView};
use crate::hue_bridge_client::HueBridgeClient;
use crate::text::opt_view;
use vstd::prelude::*;

verus! {

/// What a connection record holds: the URL of a bridge and the credential
/// for it, if there is one.
pub struct BridgeRecord {
    pub url: Seq<char>,
    pub credential: Option<Seq<char>>,
}

/// The connection record of one bridge.
#[derive(Debug)]
pub struct BridgeConnectionInfo {
    /// The bridge host.
    /// This field is badly named, it's actually
    /// a URL and not an IP address.
    pub ip: String,
    /// The bridge username for authentication.
    pub username: Option<String>,
}

impl View for BridgeConnectionInfo {
    type V = BridgeRecord;

    open spec fn view(&self) -> BridgeRecord {
        BridgeRecord { url: self.ip@, credential: opt_view(self.username) }
    }
}

impl BridgeConnectionInfo {
    /// The record of the bridge that `client` talks to: its URL and the
    /// credential that the client holds.
    pub fn of(client: &HueBridgeClient) -> (r: Self)
        ensures
            r@ == (BridgeRecord { url: client@.url_base, credential: client@.username }),
    {
        let ip = client.bridge().get_url().clone();
        let username = match client.get_username() {
            Some(name) => Some(name.clone()),
            None => None,
        };
        BridgeConnectionInfo { ip, username }
    }
}

/// What each record of a list holds.
pub open spec fn record_views(records: Seq<BridgeConnectionInfo>) -> Seq<BridgeRecord> {
    records.map_values(|record: BridgeConnectionInfo| record@)
}

/// What the bridge of each client of a list holds.
pub open spec fn client_views(clients: Seq<HueBridgeClient>) -> Seq<HueBridgeView> {
    clients.map_values(|client: HueBridgeClient| client@)
}

/// What each description of a list holds, where one was fetched.
pub open spec fn description_views(fetched: Seq<Option<HueBridge>>) -> Seq<Option<HueBridgeView>> {
    fetched.map_values(
        |description: Option<HueBridge>|
            match description {
                Some(bridge) => Some(bridge@),
                None => None,
            },
    )
}

/// The bridges that can be connected: for each record whose description
/// was fetched, in the order of the records, the bridge of the description
/// under the credential of the record. A description beyond the last
/// record counts for nothing.
pub open spec fn connected(records: Seq<BridgeRecord>, fetched: Seq<Option<HueBridgeView>>) -> Seq<
    HueBridgeView,
>
    decreases fetched.len(),
{
    if fetched.len() == 0 {
        Seq::empty()
    } else {
        let rest = connected(records, fetched.drop_last());
        match fetched.last() {
            Some(bridge) => if fetched.len() <= records.len() {
                rest.push(
                    HueBridgeView { username: records[fetched.len() - 1].credential, ..bridge },
                )
            } else {
                rest
            },
            None => rest,
        }
    }
}

/// The state that a run starts from.
#[derive(Debug)]
pub struct StartupState {
    /// The Hue bridge devices.
    pub bridges: Option<Vec<BridgeConnectionInfo>>,
}

impl View for StartupState {
    type V = Seq<BridgeRecord>;

    open spec fn view(&self) -> Seq<BridgeRecord> {
        match self.bridges {
            Some(records) => record_views(records@),
            None => Seq::empty(),
        }
    }
}

impl Default for StartupState {
    fn default() -> (r: Self)
        ensures
            r.bridges is None,
    {
        StartupState { bridges: None }
    }
}

impl StartupState {
    /// Connect bridge clients: one for each record whose description was
    /// fetched, under the credential of the record. `descriptions` holds,
    /// for each record in order, the bridge that its description gave, or
    /// `None` where the fetch failed. Without a list of records there is
    /// nothing to connect.
    pub fn connect_bridge_clients(&self, descriptions: Vec<Option<HueBridge>>) -> (r: Option<
        Vec<HueBridgeClient>,
    >)
        ensures
            r is Some <==> self.bridges is Some,
            r matches Some(clients) ==> client_views(clients@) == connected(
                self@,
                description_views(descriptions@),
            ),
    {
        let records = match &self.bridges {
            None => {
                return None;
            },
            Some(records) => records,
        };
        let ghost fetched = description_views(descriptions@);
        let mut clients: Vec<HueBridgeClient> = Vec::new();
        assert(fetched.take(0) == Seq::<Option<HueBridgeView>>::empty());
        assert(client_views(clients@) == connected(self@, fetched.take(0)));
        let total: usize = descriptions.len();
        let mut i: usize = 0;
        for description in it: descriptions
            invariant
                self.bridges == Some(*records),
                description_views(it.seq()) == fetched,
                fetched.len() == total,
                i == it.index(),
                client_views(clients@) == connected(self@, fetched.take(i as int)),
        {
            proof {
                assert(fetched.take(i + 1).drop_last() == fetched.take(i as int));
                assert(fetched.take(i + 1).last() == fetched[i as int]);
            }
            match description {
                Some(bridge) => {
                    if i < records.len() {
                        let username = match &records[i].username {
                            Some(name) => Some(name.clone()),
                            None => None,
                        };
                        let ghost before = clients@;
                        let client = HueBridgeClient::new(bridge.with_username(username));
                        clients.push(client);
                        assert(client_views(clients@) == client_views(before).push(client@));
                    }
                },
                None => {},
            }
            i = i + 1;
        }
        assert(fetched.take(fetched.len() as int) == fetched);
        Some(clients)
    }

    /// Add a bridge to the state.
    pub fn add_bridge(&mut self, info: BridgeConnectionInfo)
        ensures
            final(self)@ == old(self)@.push(info@),
            final(self).bridges is Some,
    {
        let ghost before = self@;
        let mut records = match self.bridges.take() {
            Some(records) => records,
            None => Vec::new(),
        };
        assert(record_views(records@) == before);
        records.push(info);
        self.bridges = Some(records);
        assert(self@ == before.push(info@));
    }

    /// Test whether the state contains any bridges.
    pub fn has_bridges(&self) -> (r: bool)
        ensures
            r == (self@.len() > 0),
    {
        match &self.bridges {
            Some(records) => records.len() > 0,
            None => false,
        }
    }
}

/// The state that a run starts from: what was loaded, or the empty state
/// where nothing could be loaded.
pub fn read_startup_state(loaded: Option<StartupState>) -> (r: StartupState)
    ensures
        r.bridges == (match loaded {
            Some(state) => state.bridges,
            None => None,
        }),
{
    match loaded {
        Some(state) => state,
        None => StartupState::default(),
    }
}

} // verus!
