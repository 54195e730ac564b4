//! One bridge connection: the requests that a client sends to its bridge,
//! and what it makes of the answers. The transport is the caller's.

use crate::hue_bridge::{auth_endpoint, endpoint, HueBridge, HueBridgeView};
use crate::hue_light::{HueLight, HueLightBatch, HueLightParams, LightFields};
use crate::hue_resp::{
    code_of, HueBridgeRegistration, HueBridgeRegistrationView, HueErrorCode,
};
use crate::text::{decimal, push_decimal};
use vstd::prelude::*;

verus! {

/// The path of the state of light `i`: `/lights/`, the index in decimal
/// digits, `/state`.
pub open spec fn light_state_path(i: usize) -> Seq<char> {
    seq!['/', 'l', 'i', 'g', 'h', 't', 's', '/'] + decimal(i as nat) + seq![
        '/',
        's',
        't',
        'a',
        't',
        'e',
    ]
}

/// The path of the listing of all lights.
pub open spec fn lights_path() -> Seq<char> {
    seq!['/', 'l', 'i', 'g', 'h', 't', 's']
}

/// The device type under which the application `app` registers.
pub open spec fn device_type(app: Seq<char>) -> Seq<char> {
    seq!['H', 'u', 'e', 's', 't', 'o', 'n', '#'] + app
}

/// A state update ready to be sent: `PUT` the fields to the endpoint.
#[derive(Debug)]
pub struct LightStateRequest {
    pub endpoint: String,
    pub params: HueLightParams,
}

/// A registration ready to be sent: `POST` the device type to the
/// endpoint.
#[derive(Debug)]
pub struct RegistrationRequest {
    pub endpoint: String,
    pub devicetype: String,
}

/// What came back for a registration request.
#[derive(Debug)]
pub enum RegistrationReply {
    /// The request could not be sent.
    SendFailed,
    /// The answer could not be decoded.
    Undecodable,
    /// The entries of the answer, in order.
    Statuses(Vec<HueBridgeRegistration>),
}

/// What came back for a request to list the lights.
#[derive(Debug)]
pub enum LightsReply {
    /// The request could not be sent.
    SendFailed,
    /// The answer could not be decoded.
    Undecodable,
    /// The lights of the answer, in the order of their indices.
    Listing(Vec<HueLight>),
}

/// Why the lights could not be listed.
#[derive(Clone, Copy, Debug, PartialEq, Eq, Structural)]
pub enum LightsError {
    NotAuthenticated,
    NetworkError,
    DecodeError,
}

/// The saturation that `set_light_saturation` sends for `sat`: within
/// `1..=254`.
pub open spec fn sent_saturation(sat: u8) -> u8 {
    if sat < 1 {
        1
    } else if sat > 254 {
        254
    } else {
        sat
    }
}

/// Whether entry `i` is the first of `statuses` that grants a credential.
pub open spec fn grants_first(statuses: Seq<HueBridgeRegistrationView>, i: int) -> bool {
    &&& 0 <= i < statuses.len()
    &&& statuses[i].username is Some
    &&& forall|j: int| 0 <= j < i ==> (#[trigger] statuses[j]).username is None
}

/// Whether every entry that a registration looks at says something: the
/// entries up to the first that grants a credential.
pub open spec fn readable(statuses: Seq<HueBridgeRegistrationView>) -> bool {
    forall|i: int|
        0 <= i < statuses.len() && (forall|j: int|
            0 <= j < i ==> (#[trigger] statuses[j]).username is None) ==> (
        #[trigger] statuses[i]).decided()
}

/// The code with which an answer without a credential refuses: that of
/// its last entry, and `Unknown` for an empty answer.
pub open spec fn refusal(statuses: Seq<HueBridgeRegistrationView>) -> HueErrorCode {
    if statuses.len() == 0 {
        HueErrorCode::Unknown
    } else {
        match statuses.last().error {
            Some(error) => code_of(error.kind),
            None => HueErrorCode::Unknown,
        }
    }
}

impl RegistrationReply {
    /// Whether a registration can be read off this reply: every entry up
    /// to the first that grants a credential grants one or reports an
    /// error.
    pub open spec fn legible(self) -> bool {
        self matches RegistrationReply::Statuses(statuses) ==> readable(
            HueBridgeRegistration::views(statuses@),
        )
    }

    /// Tests whether a registration can be read off this reply.
    pub fn is_legible(&self) -> (r: bool)
        ensures
            r == self.legible(),
    {
        match self {
            RegistrationReply::SendFailed => true,
            RegistrationReply::Undecodable => true,
            RegistrationReply::Statuses(statuses) => {
                let ghost entries = HueBridgeRegistration::views(statuses@);
                let mut i: usize = 0;
                while i < statuses.len()
                    invariant
                        i <= statuses@.len(),
                        self matches RegistrationReply::Statuses(all) && all == *statuses,
                        entries == HueBridgeRegistration::views(statuses@),
                        forall|j: int| 0 <= j < i ==> (#[trigger] entries[j]).username is None,
                        forall|j: int| 0 <= j < i ==> (#[trigger] entries[j]).decided(),
                    decreases statuses@.len() - i,
                {
                    assert(entries[i as int] == statuses@[i as int]@);
                    if !statuses[i].is_decided() {
                        return false;
                    }
                    if statuses[i].get_username().is_some() {
                        assert forall|k: int|
                            0 <= k < entries.len() && (forall|j: int|
                                0 <= j < k ==> (#[trigger] entries[j]).username is None) implies (
                        #[trigger] entries[k]).decided() by {
                            if k > i {
                                assert(entries[i as int].username is Some);
                            }
                        }
                        return true;
                    }
                    i = i + 1;
                }
                true
            },
        }
    }
}

/// A client of one bridge.
#[derive(Debug)]
pub struct HueBridgeClient {
    bridge: HueBridge,
}

impl View for HueBridgeClient {
    type V = HueBridgeView;

    closed spec fn view(&self) -> HueBridgeView {
        self.bridge@
    }
}

impl HueBridgeClient {
    /// Construct a new `HueBridgeClient` from a `HueBridge`.
    pub fn new(bridge: HueBridge) -> (r: Self)
        ensures
            r@ == bridge@,
    {
        Self { bridge }
    }

    /// The bridge that the client talks to.
    pub fn bridge(&self) -> (r: &HueBridge)
        ensures
            r@ == self@,
    {
        &self.bridge
    }

    /// Get the API username
    pub fn get_username(&self) -> (r: Option<&String>)
        ensures
            r is Some <==> self@.username is Some,
            r matches Some(name) ==> Some(name@) == self@.username,
    {
        self.bridge.get_username()
    }

    /// The endpoint of the state of light `i`, or `None` where the client
    /// has no credential.
    pub fn light_state_endpoint(&self, i: usize) -> (r: Option<String>)
        ensures
            r is Some <==> self@.username is Some,
            r matches Some(url) ==> url@ == auth_endpoint(
                self@.url_base,
                self@.username->0,
                light_state_path(i),
            ),
    {
        match self.bridge.get_username() {
            None => None,
            Some(username) => {
                proof {
                    reveal_strlit("/lights/");
                    reveal_strlit("/state");
                }
                let mut path = String::from_str("/lights/");
                push_decimal(&mut path, i);
                path.append("/state");
                assert(path@ =~= light_state_path(i));
                Some(self.bridge.get_auth_endpoint(username.as_str(), path.as_str()))
            },
        }
    }

    /// The request that sets the saturation of light `i` to `sat`, brought
    /// into `1..=254`; `None` where the client has no credential.
    pub fn set_light_saturation(&self, i: usize, sat: u8) -> (r: Option<LightStateRequest>)
        ensures
            r is Some <==> self@.username is Some,
            r matches Some(request) ==> {
                &&& request.endpoint@ == auth_endpoint(
                    self@.url_base,
                    self@.username->0,
                    light_state_path(i),
                )
                &&& request.params@ == (LightFields {
                    sat: Some(sent_saturation(sat)),
                    ..LightFields::none()
                })
            },
    {
        match self.light_state_endpoint(i) {
            None => None,
            Some(endpoint) => {
                let mut batch = HueLightBatch::new(i);
                batch.saturation(
                    if sat < 1 {
                        1
                    } else {
                        sat
                    },
                );
                let (_, params) = batch.build();
                Some(LightStateRequest { endpoint, params })
            },
        }
    }

    /// The request that sends the update `state` to light `i`; `None`
    /// where the client has no credential.
    pub fn set_light_state(&self, i: usize, state: &HueLightParams) -> (r: Option<
        LightStateRequest,
    >)
        ensures
            r is Some <==> self@.username is Some,
            r matches Some(request) ==> {
                &&& request.endpoint@ == auth_endpoint(
                    self@.url_base,
                    self@.username->0,
                    light_state_path(i),
                )
                &&& request.params@ == state@
            },
    {
        match self.light_state_endpoint(i) {
            None => None,
            Some(endpoint) => Some(LightStateRequest { endpoint, params: *state }),
        }
    }

    /// The endpoint that lists the lights, or why there is none: without a
    /// credential the client is not authenticated.
    pub fn lights_endpoint(&self) -> (r: Result<String, LightsError>)
        ensures
            r is Ok <==> self@.username is Some,
            r matches Ok(url) ==> url@ == auth_endpoint(
                self@.url_base,
                self@.username->0,
                lights_path(),
            ),
            r matches Err(e) ==> e == LightsError::NotAuthenticated,
    {
        match self.bridge.get_username() {
            None => Err(LightsError::NotAuthenticated),
            Some(username) => {
                proof {
                    reveal_strlit("/lights");
                }
                assert("/lights"@ =~= lights_path());
                Ok(self.bridge.get_auth_endpoint(username.as_str(), "/lights"))
            },
        }
    }

    /// Makes the list of lights of what came back for the request to list
    /// them.
    pub fn fetch_lights(&self, reply: LightsReply) -> (r: Result<Vec<HueLight>, LightsError>)
        ensures
            self@.username is None ==> r == Err::<Vec<HueLight>, LightsError>(
                LightsError::NotAuthenticated,
            ),
            self@.username is Some ==> r == (match reply {
                LightsReply::SendFailed => Err(LightsError::NetworkError),
                LightsReply::Undecodable => Err(LightsError::DecodeError),
                LightsReply::Listing(lights) => Ok(lights),
            }),
    {
        if self.bridge.get_username().is_none() {
            return Err(LightsError::NotAuthenticated);
        }
        match reply {
            LightsReply::SendFailed => Err(LightsError::NetworkError),
            LightsReply::Undecodable => Err(LightsError::DecodeError),
            LightsReply::Listing(lights) => Ok(lights),
        }
    }

    /// The request that registers the application `app` with the bridge.
    pub fn registration_request(&self, app: &str) -> (r: RegistrationRequest)
        ensures
            r.endpoint@ == endpoint(self@.url_base, Seq::<char>::empty()),
            r.devicetype@ == device_type(app@),
    {
        proof {
            reveal_strlit("");
            reveal_strlit("Hueston#");
        }
        let endpoint = self.bridge.get_endpoint("");
        let mut devicetype = String::from_str("Hueston#");
        devicetype.append(app);
        assert(""@ =~= Seq::<char>::empty());
        assert(devicetype@ =~= device_type(app@));
        RegistrationRequest { endpoint, devicetype }
    }

    /// Makes of the answer to a registration request what it means for
    /// the client: the credential of the first entry that grants one is
    /// attached, and the registration has succeeded; else it has failed
    /// with the code of the last entry, or with `Unknown` where nothing
    /// came back.
    pub fn register(&mut self, reply: RegistrationReply) -> (r: Result<(), HueErrorCode>)
        requires
            reply.legible(),
        ensures
            reply is SendFailed || reply is Undecodable ==> r == Err::<(), HueErrorCode>(
                HueErrorCode::Unknown,
            ) && final(self)@ == old(self)@,
            reply matches RegistrationReply::Statuses(statuses) ==> {
                let entries = HueBridgeRegistration::views(statuses@);
                match r {
                    Ok(_) => exists|i: int|
                        #[trigger] grants_first(entries, i) && final(self)@ == (HueBridgeView {
                            username: entries[i].username,
                            ..old(self)@
                        }),
                    Err(code) => {
                        &&& forall|i: int|
                            0 <= i < entries.len() ==> (#[trigger] entries[i]).username is None
                        &&& code == refusal(entries)
                        &&& final(self)@ == old(self)@
                    },
                }
            },
    {
        match reply {
            RegistrationReply::SendFailed => Err(HueErrorCode::Unknown),
            RegistrationReply::Undecodable => Err(HueErrorCode::Unknown),
            RegistrationReply::Statuses(statuses) => {
                let ghost entries = HueBridgeRegistration::views(statuses@);
                let mut last_error: Option<HueErrorCode> = None;
                for status in it: statuses
                    invariant
                        HueBridgeRegistration::views(it.seq()) == entries,
                        reply matches RegistrationReply::Statuses(all)
                            && HueBridgeRegistration::views(all@) == entries,
                        readable(entries),
                        self@ == old(self)@,
                        forall|j: int|
                            0 <= j < it.index() ==> (#[trigger] entries[j]).username is None,
                        last_error == (if it.index() == 0 {
                            None
                        } else {
                            Some(refusal(entries.take(it.index() as int)))
                        }),
                {
                    proof {
                        assert(entries[it.index() as int] == status@);
                        assert(entries.take(it.index() + 1).last() == entries[it.index() as int]);
                    }
                    match status.into_result() {
                        Ok(resp) => {
                            self.bridge.set_username(resp.username);
                            assert(grants_first(entries, it.index() as int));
                            return Ok(());
                        },
                        Err(err) => {
                            last_error = Some(err.error_code());
                        },
                    }
                }
                proof {
                    assert(entries.take(entries.len() as int) == entries);
                }
                match last_error {
                    Some(code) => Err(code),
                    None => Err(HueErrorCode::Unknown),
                }
            },
        }
    }
}

} // verus!
