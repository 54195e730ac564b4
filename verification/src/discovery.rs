//! Finding bridges and pairing with them: when to search at all, and what
//! to do about each answer to a registration attempt. The search, the
//! attempts, the waiting and the saving are the caller's.

use crate::hue_bridge_client::HueBridgeClient;
use crate::hue_resp::HueErrorCode;
use crate::state::{BridgeConnectionInfo, BridgeRecord, StartupState};
use vstd::prelude::*;

verus! {

/// How long to wait before a registration is tried again, in
/// milliseconds.
pub const RETRY_DELAY_MILLIS: u64 = 500;

/// The application name under which the pairing registers.
pub const APPLICATION: &'static str = "hueston-sync";

#[derive(Clone, Copy, Debug, PartialEq, Eq, Structural)]
pub enum DiscoveryMode {
    /// Discover all bridges.
    /// Return if bridges were already found.
    Initial,
    /// Discover new bridges.
    Additional,
}

/// What a discovery starts with.
#[derive(Clone, Copy, Debug, PartialEq, Eq, Structural)]
pub enum DiscoveryPlan {
    /// Bridges are known already: nothing is searched and nothing sent.
    UseKnown,
    /// No bridge is known: search the network.
    Probe,
}

/// Decides whether a discovery searches the network: only where no bridge
/// is known yet. The records are left as they are.
pub fn plan_discovery(state: &StartupState, mode: DiscoveryMode) -> (plan: DiscoveryPlan)
    requires
        mode is Initial,
    ensures
        plan == (if state@.len() > 0 {
            DiscoveryPlan::UseKnown
        } else {
            DiscoveryPlan::Probe
        }),
{
    if state.has_bridges() {
        DiscoveryPlan::UseKnown
    } else {
        DiscoveryPlan::Probe
    }
}

/// What to do after a registration attempt.
#[derive(Clone, Copy, Debug, PartialEq, Eq, Structural)]
pub enum PairingAction {
    /// The bridge is paired and its record added: save the records now,
    /// then go on with the next bridge.
    Persist,
    /// Ask for the link button to be pressed, wait, and try the same
    /// bridge again.
    Prompt,
    /// Wait, and try the same bridge again.
    Wait,
    /// The bridge refused for a reason of its own: give up on all
    /// bridges.
    Abort,
    /// There was no attempt to answer: the pairing is over.
    Idle,
}

impl PairingAction {
    /// How long to wait before the next attempt, in milliseconds: the
    /// retry delay where the same bridge is tried again, else nothing.
    pub fn wait_millis(&self) -> (r: u64)
        ensures
            r == (if *self == PairingAction::Prompt || *self == PairingAction::Wait {
                RETRY_DELAY_MILLIS
            } else {
                0
            }),
    {
        match self {
            PairingAction::Prompt => RETRY_DELAY_MILLIS,
            PairingAction::Wait => RETRY_DELAY_MILLIS,
            _ => 0,
        }
    }
}

/// Where a pairing stands.
pub struct PairingView {
    /// How many bridges were found.
    pub total: nat,
    /// How many of them are paired.
    pub current: nat,
    /// Whether a registration with the current bridge was tried.
    pub tried: bool,
    /// Whether the link button of the current bridge was asked for.
    pub prompted: bool,
    /// Whether the pairing was given up.
    pub aborted: bool,
}

impl PairingView {
    /// Whether a bridge is waiting to be registered.
    pub open spec fn active(self) -> bool {
        !self.aborted && self.current < self.total
    }

    /// Where the pairing stands after the outcome of a registration
    /// attempt, and what to do next.
    pub open spec fn next(self, outcome: Result<(), HueErrorCode>) -> (PairingView, PairingAction) {
        if !self.active() {
            (self, PairingAction::Idle)
        } else {
            match outcome {
                Ok(_) => (
                    PairingView {
                        current: self.current + 1,
                        tried: false,
                        prompted: false,
                        ..self
                    },
                    PairingAction::Persist,
                ),
                Err(HueErrorCode::LinkButtonNotPressed) => (
                    PairingView { tried: true, prompted: true, ..self },
                    if self.prompted {
                        PairingAction::Wait
                    } else {
                        PairingAction::Prompt
                    },
                ),
                Err(HueErrorCode::Unknown) => (
                    PairingView { tried: true, aborted: true, ..self },
                    PairingAction::Abort,
                ),
            }
        }
    }
}

/// The pairing with the bridges that a search found, one after the other.
#[derive(Debug)]
pub struct Pairing {
    total: usize,
    current: usize,
    tried: bool,
    prompted: bool,
    aborted: bool,
}

impl View for Pairing {
    type V = PairingView;

    closed spec fn view(&self) -> PairingView {
        PairingView {
            total: self.total as nat,
            current: self.current as nat,
            tried: self.tried,
            prompted: self.prompted,
            aborted: self.aborted,
        }
    }
}

impl Pairing {
    #[verifier::type_invariant]
    spec fn counted(self) -> bool {
        self.current <= self.total
    }

    /// Begins to pair with `found` bridges; `None` where none was found.
    pub fn begin(found: usize) -> (r: Option<Pairing>)
        ensures
            r is Some <==> found > 0,
            r matches Some(pairing) ==> pairing@ == (PairingView {
                total: found as nat,
                current: 0,
                tried: false,
                prompted: false,
                aborted: false,
            }),
    {
        if found == 0 {
            None
        } else {
            Some(Pairing { total: found, current: 0, tried: false, prompted: false, aborted: false })
        }
    }

    /// Whether the pending bridge is new: no registration with it was
    /// tried yet.
    pub fn is_first_attempt(&self) -> (r: bool)
        ensures
            r == (self@.active() && !self@.tried),
    {
        !self.aborted && self.current < self.total && !self.tried
    }

    /// The bridge to register next, counted from zero, or `None` where
    /// the pairing is over.
    pub fn pending(&self) -> (r: Option<usize>)
        ensures
            r is Some <==> self@.active(),
            r matches Some(bridge) ==> bridge == self@.current,
    {
        if !self.aborted && self.current < self.total {
            Some(self.current)
        } else {
            None
        }
    }

    /// Takes the outcome of a registration attempt with `bridge`, the
    /// bridge that is pending. A success adds the record of the bridge to
    /// `state` and moves on to the next bridge.
    pub fn step(
        &mut self,
        state: &mut StartupState,
        bridge: &HueBridgeClient,
        outcome: Result<(), HueErrorCode>,
    ) -> (action: PairingAction)
        ensures
            (final(self)@, action) == old(self)@.next(outcome),
            final(state)@ == (if action == PairingAction::Persist {
                old(state)@.push(
                    BridgeRecord { url: bridge@.url_base, credential: bridge@.username },
                )
            } else {
                old(state)@
            }),
    {
        proof {
            use_type_invariant(&*self);
        }
        if self.aborted || self.current >= self.total {
            return PairingAction::Idle;
        }
        match outcome {
            Ok(_) => {
                state.add_bridge(BridgeConnectionInfo::of(bridge));
                self.current = self.current + 1;
                self.tried = false;
                self.prompted = false;
                PairingAction::Persist
            },
            Err(HueErrorCode::LinkButtonNotPressed) => {
                let asked: bool = self.prompted;
                self.tried = true;
                self.prompted = true;
                if asked {
                    PairingAction::Wait
                } else {
                    PairingAction::Prompt
                }
            },
            Err(HueErrorCode::Unknown) => {
                self.tried = true;
                self.aborted = true;
                PairingAction::Abort
            },
        }
    }
}

/// The link button is asked for once for each bridge: after the prompt,
/// no outcome makes the pairing prompt again while it stays with the same
/// bridge.
pub proof fn prompt_once(before: PairingView, outcome: Result<(), HueErrorCode>)
    requires
        before.prompted,
    ensures
        before.next(outcome).1 != PairingAction::Prompt,
        before.next(outcome).0.current == before.current ==> before.next(outcome).0.prompted,
{
}

} // verus!
