use hueston::discovery::plan_discovery;
use hueston::hue_bridge_client::{LightsError, LightsReply, RegistrationReply};
use hueston::{
    read_startup_state, BridgeConnectionInfo, DiscoveryMode, DiscoveryPlan, HueBridge,
    HueBridgeClient, HueBridgeDevice, HueBridgeError, HueBridgeRegistration,
    HueBridgeRegistrationSuccess, HueErrorCode, HueLight, HueLightState, Hueston, Pairing,
    PairingAction, StartupState,
};

fn bridge(url: &str) -> HueBridge {
    HueBridge::new(
        url.to_string(),
        HueBridgeDevice::new(
            format!("Bridge at {}", url),
            "BSB002".to_string(),
            "0017881234".to_string(),
            "uuid:0017881234".to_string(),
        ),
    )
}

fn granted(username: &str) -> HueBridgeRegistration {
    HueBridgeRegistration::new(
        Some(HueBridgeRegistrationSuccess { username: username.to_string() }),
        None,
    )
}

fn refused(kind: i32) -> HueBridgeRegistration {
    HueBridgeRegistration::new(
        None,
        Some(HueBridgeError::new(kind, "".to_string(), "refused".to_string())),
    )
}

fn link_button() -> RegistrationReply {
    RegistrationReply::Statuses(vec![refused(101)])
}

#[test]
fn error_type_101_is_the_link_button() {
    let error = HueBridgeError::new(101, "/".to_string(), "link button not pressed".to_string());
    assert_eq!(error.error_code(), HueErrorCode::LinkButtonNotPressed);
}

#[test]
fn every_other_error_type_is_unknown() {
    for kind in [i32::MIN, -101, -1, 0, 1, 100, 102, 1010, i32::MAX] {
        let error = HueBridgeError::new(kind, "/".to_string(), "".to_string());
        assert_eq!(error.error_code(), HueErrorCode::Unknown);
    }
}

#[test]
fn an_entry_hands_out_its_username() {
    assert_eq!(granted("abc").get_username().map(|u| u.as_str()), Some("abc"));
    assert_eq!(refused(101).get_username(), None);
    assert_eq!(HueBridgeRegistration::new(None, None).get_username(), None);
}

#[test]
fn an_entry_says_whether_it_is_decided() {
    assert!(granted("abc").is_decided());
    assert!(refused(7).is_decided());
    assert!(!HueBridgeRegistration::new(None, None).is_decided());
}

#[test]
fn into_result_prefers_the_success() {
    match granted("abc").into_result() {
        Ok(success) => assert_eq!(success.username, "abc"),
        Err(_) => panic!("a success was expected"),
    }
    let both = HueBridgeRegistration::new(
        Some(HueBridgeRegistrationSuccess { username: "both".to_string() }),
        Some(HueBridgeError::new(101, "".to_string(), "".to_string())),
    );
    match both.into_result() {
        Ok(success) => assert_eq!(success.username, "both"),
        Err(_) => panic!("a success was expected"),
    }
}

#[test]
fn into_result_gives_the_error_without_a_success() {
    match refused(101).into_result() {
        Ok(_) => panic!("an error was expected"),
        Err(error) => assert_eq!(error.error_code(), HueErrorCode::LinkButtonNotPressed),
    }
    match refused(3).into_result() {
        Ok(_) => panic!("an error was expected"),
        Err(error) => assert_eq!(error.error_code(), HueErrorCode::Unknown),
    }
}

#[test]
fn registration_request_names_the_application() {
    let client = HueBridgeClient::new(bridge("http://10.0.0.2/"));
    let request = client.registration_request("hueston-sync");
    assert_eq!(request.endpoint, "http://10.0.0.2/api");
    assert_eq!(request.devicetype, "Hueston#hueston-sync");
    let request = HueBridgeClient::new(bridge("http://h")).registration_request("");
    assert_eq!(request.endpoint, "http://h/api");
    assert_eq!(request.devicetype, "Hueston#");
}

#[test]
fn register_fails_as_unknown_when_nothing_usable_came_back() {
    let mut client = HueBridgeClient::new(bridge("http://h/"));
    assert_eq!(client.register(RegistrationReply::SendFailed), Err(HueErrorCode::Unknown));
    assert_eq!(client.register(RegistrationReply::Undecodable), Err(HueErrorCode::Unknown));
    assert_eq!(client.register(RegistrationReply::Statuses(Vec::new())), Err(HueErrorCode::Unknown));
    assert_eq!(client.get_username(), None);
}

#[test]
fn register_attaches_the_first_credential() {
    let mut client = HueBridgeClient::new(bridge("http://h/"));
    let reply = RegistrationReply::Statuses(vec![refused(101), granted("first"), granted("second")]);
    assert_eq!(client.register(reply), Ok(()));
    assert_eq!(client.get_username().map(|u| u.as_str()), Some("first"));
}

#[test]
fn register_does_not_look_past_the_first_credential() {
    let mut client = HueBridgeClient::new(bridge("http://h/"));
    let reply = RegistrationReply::Statuses(vec![
        granted("first"),
        HueBridgeRegistration::new(None, None),
        refused(1),
    ]);
    assert_eq!(client.register(reply), Ok(()));
    assert_eq!(client.get_username().map(|u| u.as_str()), Some("first"));
}

#[test]
fn register_fails_with_the_code_of_the_last_error() {
    let mut client = HueBridgeClient::new(bridge("http://h/"));
    let reply = RegistrationReply::Statuses(vec![refused(7), refused(101)]);
    assert_eq!(client.register(reply), Err(HueErrorCode::LinkButtonNotPressed));
    let reply = RegistrationReply::Statuses(vec![refused(101), refused(7)]);
    assert_eq!(client.register(reply), Err(HueErrorCode::Unknown));
    assert_eq!(client.register(link_button()), Err(HueErrorCode::LinkButtonNotPressed));
    assert_eq!(client.get_username(), None);
}

#[test]
fn register_replaces_an_earlier_credential() {
    let mut client = HueBridgeClient::new(bridge("http://h/").with_username(Some("old".to_string())));
    assert_eq!(client.register(link_button()), Err(HueErrorCode::LinkButtonNotPressed));
    assert_eq!(client.get_username().map(|u| u.as_str()), Some("old"));
    assert_eq!(client.register(RegistrationReply::Statuses(vec![granted("new")])), Ok(()));
    assert_eq!(client.get_username().map(|u| u.as_str()), Some("new"));
}

#[test]
fn discovery_is_skipped_when_a_bridge_is_known() {
    let mut state = StartupState::default();
    state.add_bridge(BridgeConnectionInfo { ip: "http://h/".to_string(), username: None });
    assert_eq!(plan_discovery(&state, DiscoveryMode::Initial), DiscoveryPlan::UseKnown);
    let records = state.bridges.unwrap();
    assert_eq!(records.len(), 1);
    assert_eq!(records[0].ip, "http://h/");
    assert_eq!(records[0].username, None);
}

#[test]
fn discovery_searches_when_no_bridge_is_known() {
    assert_eq!(plan_discovery(&StartupState::default(), DiscoveryMode::Initial), DiscoveryPlan::Probe);
    let empty = StartupState { bridges: Some(Vec::new()) };
    assert_eq!(plan_discovery(&empty, DiscoveryMode::Initial), DiscoveryPlan::Probe);
}

#[test]
fn nothing_found_means_nothing_to_pair() {
    assert!(Pairing::begin(0).is_none());
    assert!(Hueston::clients_for(None).is_none());
    assert!(Hueston::clients_for(Some(Vec::new())).is_none());
}

#[test]
fn clients_keep_the_order_of_the_bridges() {
    let clients =
        Hueston::clients_for(Some(vec![bridge("http://a/"), bridge("http://b/"), bridge("http://c/")]))
            .unwrap();
    let urls: Vec<&str> = clients.iter().map(|c| c.bridge().get_url().as_str()).collect();
    assert_eq!(urls, vec!["http://a/", "http://b/", "http://c/"]);
}

#[test]
fn link_button_twice_then_success_prompts_once() {
    let mut state = read_startup_state(None);
    assert_eq!(plan_discovery(&state, DiscoveryMode::Initial), DiscoveryPlan::Probe);
    let mut clients = Hueston::clients_for(Some(vec![bridge("http://10.0.0.2/")])).unwrap();
    let mut pairing = Pairing::begin(clients.len()).unwrap();
    let replies =
        vec![link_button(), link_button(), RegistrationReply::Statuses(vec![granted("credential-1")])];
    let mut actions = Vec::new();
    for reply in replies {
        let current = pairing.pending().unwrap();
        assert_eq!(current, 0);
        let outcome = clients[current].register(reply);
        actions.push(pairing.step(&mut state, &clients[current], outcome));
    }
    assert_eq!(actions, vec![PairingAction::Prompt, PairingAction::Wait, PairingAction::Persist]);
    assert_eq!(actions.iter().filter(|a| **a == PairingAction::Prompt).count(), 1);
    assert_eq!(pairing.pending(), None);
    let records = state.bridges.unwrap();
    assert_eq!(records.len(), 1);
    assert_eq!(records[0].ip, "http://10.0.0.2/");
    assert_eq!(records[0].username.as_deref(), Some("credential-1"));
}

#[test]
fn each_bridge_is_prompted_for_once() {
    let mut state = StartupState::default();
    let mut clients =
        Hueston::clients_for(Some(vec![bridge("http://a/"), bridge("http://b/")])).unwrap();
    let mut pairing = Pairing::begin(2).unwrap();
    let script = vec![
        (link_button(), PairingAction::Prompt, Some(0)),
        (link_button(), PairingAction::Wait, Some(0)),
        (link_button(), PairingAction::Wait, Some(0)),
        (RegistrationReply::Statuses(vec![granted("one")]), PairingAction::Persist, Some(1)),
        (link_button(), PairingAction::Prompt, Some(1)),
        (link_button(), PairingAction::Wait, Some(1)),
        (RegistrationReply::Statuses(vec![granted("two")]), PairingAction::Persist, None),
    ];
    let mut announced = Vec::new();
    for (reply, action, then) in script {
        let current = pairing.pending().unwrap();
        if pairing.is_first_attempt() {
            announced.push(current);
        }
        let outcome = clients[current].register(reply);
        assert_eq!(pairing.step(&mut state, &clients[current], outcome), action);
        assert_eq!(pairing.pending(), then);
    }
    assert_eq!(announced, vec![0, 1]);
    assert!(!pairing.is_first_attempt());
    let records = state.bridges.unwrap();
    assert_eq!(records.len(), 2);
    assert_eq!(records[0].ip, "http://a/");
    assert_eq!(records[0].username.as_deref(), Some("one"));
    assert_eq!(records[1].ip, "http://b/");
    assert_eq!(records[1].username.as_deref(), Some("two"));
}

#[test]
fn any_other_refusal_aborts_before_the_remaining_bridges() {
    let mut state = StartupState::default();
    let mut clients =
        Hueston::clients_for(Some(vec![bridge("http://a/"), bridge("http://b/")])).unwrap();
    let mut pairing = Pairing::begin(2).unwrap();
    let outcome = clients[0].register(RegistrationReply::Statuses(vec![refused(7)]));
    assert_eq!(outcome, Err(HueErrorCode::Unknown));
    assert_eq!(pairing.step(&mut state, &clients[0], outcome), PairingAction::Abort);
    assert_eq!(pairing.pending(), None);
    assert!(state.bridges.is_none());
    assert_eq!(pairing.step(&mut state, &clients[1], Ok(())), PairingAction::Idle);
    assert!(state.bridges.is_none());
}

#[test]
fn a_bridge_paired_before_an_abort_stays_recorded() {
    let mut state = StartupState::default();
    let mut clients =
        Hueston::clients_for(Some(vec![bridge("http://a/"), bridge("http://b/")])).unwrap();
    let mut pairing = Pairing::begin(2).unwrap();
    let outcome = clients[0].register(RegistrationReply::Statuses(vec![granted("one")]));
    assert_eq!(pairing.step(&mut state, &clients[0], outcome), PairingAction::Persist);
    let outcome = clients[1].register(RegistrationReply::SendFailed);
    assert_eq!(pairing.step(&mut state, &clients[1], outcome), PairingAction::Abort);
    let records = state.bridges.unwrap();
    assert_eq!(records.len(), 1);
    assert_eq!(records[0].username.as_deref(), Some("one"));
}

#[test]
fn a_finished_pairing_takes_no_more_outcomes() {
    let mut state = StartupState::default();
    let client = HueBridgeClient::new(bridge("http://a/").with_username(Some("u".to_string())));
    let mut pairing = Pairing::begin(1).unwrap();
    assert_eq!(pairing.step(&mut state, &client, Ok(())), PairingAction::Persist);
    assert_eq!(pairing.step(&mut state, &client, Ok(())), PairingAction::Idle);
    assert_eq!(
        pairing.step(&mut state, &client, Err(HueErrorCode::LinkButtonNotPressed)),
        PairingAction::Idle
    );
    assert_eq!(state.bridges.unwrap().len(), 1);
}

#[test]
fn the_retry_delay_is_half_a_second() {
    assert_eq!(hueston::discovery::RETRY_DELAY_MILLIS, 500);
    assert_eq!(hueston::discovery::APPLICATION, "hueston-sync");
    assert_eq!(PairingAction::Prompt.wait_millis(), 500);
    assert_eq!(PairingAction::Wait.wait_millis(), 500);
    assert_eq!(PairingAction::Persist.wait_millis(), 0);
    assert_eq!(PairingAction::Abort.wait_millis(), 0);
    assert_eq!(PairingAction::Idle.wait_millis(), 0);
}

fn lamp(index: usize) -> HueLight {
    HueLight::new(
        index,
        HueLightState::new(
            true,
            1,
            0,
            0,
            "none".to_string(),
            153,
            "none".to_string(),
            None,
            false,
        ),
        "Dimmable light".to_string(),
        "Lamp".to_string(),
        "LWB010".to_string(),
        "Philips".to_string(),
        "Hue white lamp".to_string(),
        "00:17".to_string(),
        "1.0".to_string(),
    )
}

#[test]
fn lights_cannot_be_listed_without_a_credential() {
    let client = HueBridgeClient::new(bridge("http://h/"));
    assert_eq!(client.lights_endpoint(), Err(LightsError::NotAuthenticated));
    assert_eq!(client.fetch_lights(LightsReply::SendFailed).err(), Some(LightsError::NotAuthenticated));
    assert_eq!(client.fetch_lights(LightsReply::Undecodable).err(), Some(LightsError::NotAuthenticated));
    assert_eq!(
        client.fetch_lights(LightsReply::Listing(vec![lamp(1)])).err(),
        Some(LightsError::NotAuthenticated)
    );
}

#[test]
fn listing_lights_reports_transport_and_decoding_apart() {
    let client = HueBridgeClient::new(bridge("http://h/").with_username(Some("u".to_string())));
    assert_eq!(client.lights_endpoint().as_deref(), Ok("http://h/api/u/lights"));
    assert_eq!(client.fetch_lights(LightsReply::SendFailed).err(), Some(LightsError::NetworkError));
    assert_eq!(client.fetch_lights(LightsReply::Undecodable).err(), Some(LightsError::DecodeError));
}

#[test]
fn listing_lights_keeps_the_indices_of_the_bridge() {
    let client = HueBridgeClient::new(bridge("http://h/").with_username(Some("u".to_string())));
    let lights = client.fetch_lights(LightsReply::Listing(vec![lamp(2), lamp(3), lamp(17)])).unwrap();
    let indices: Vec<usize> = lights.iter().map(|l| l.index()).collect();
    assert_eq!(indices, vec![2, 3, 17]);
    assert!(client.fetch_lights(LightsReply::Listing(Vec::new())).unwrap().is_empty());
}
