//! Control of Philips Hue bridges: endpoints, pairing, persisted
//! connection records and the frame generators of two ambient effects.

use vstd::prelude::*;

pub mod dice;
pub mod discovery;
pub mod dispatch;
pub mod effects;
pub mod hue_bridge;
pub mod hue_bridge_client;
pub mod hue_light;
pub mod hue_resp;
pub mod state;
pub mod text;

pub use self::dice::Dice;
pub use self::discovery::{DiscoveryMode, DiscoveryPlan, Pairing, PairingAction};
pub use self::effects::{ColorsweepEffect, FireplaceSimulation};
pub use self::hue_bridge::{HueBridge, HueBridgeDevice, UpnpScan};
pub use self::hue_bridge_client::HueBridgeClient;
pub use self::hue_light::{HueLight, HueLightBatch, HueLightParams, HueLightState};
pub use self::hue_resp::{
    HueBridgeError, HueBridgeRegistration, HueBridgeRegistrationSuccess, HueErrorCode,
};
pub use self::state::{read_startup_state, BridgeConnectionInfo, StartupState};

verus! {

/// Hueston.
pub struct Hueston;

impl Hueston {
    /// The clients of the bridges that a search found, one for each
    /// bridge in the same order; `None` where it found none.
    pub fn clients_for(found: Option<Vec<HueBridge>>) -> (r: Option<Vec<HueBridgeClient>>)
        ensures
            r is Some <==> (found matches Some(bridges) && bridges@.len() > 0),
            r matches Some(clients) ==> state::client_views(clients@) == hue_bridge::bridge_views(
                found->0@,
            ),
    {
        let bridges = match found {
            Some(bridges) => bridges,
            None => {
                return None;
            },
        };
        let ghost all = hue_bridge::bridge_views(bridges@);
        let mut clients: Vec<HueBridgeClient> = Vec::new();
        assert(state::client_views(clients@) == all.take(0));
        for bridge in it: bridges
            invariant
                hue_bridge::bridge_views(it.seq()) == all,
                state::client_views(clients@) == all.take(it.index() as int),
        {
            let ghost before = clients@;
            let client = HueBridgeClient::new(bridge);
            clients.push(client);
            assert(state::client_views(clients@) == state::client_views(before).push(client@));
            assert(all.take(it.index() + 1) == all.take(it.index() as int).push(bridge@));
        }
        assert(all.take(all.len() as int) == all);
        if clients.len() == 0 {
            None
        } else {
            Some(clients)
        }
    }
}

} // verus!
