use hueston::hue_light::HueLightBatch;
use hueston::{HueBridge, HueBridgeClient, HueBridgeDevice};

fn device() -> HueBridgeDevice {
    HueBridgeDevice::new(
        "Philips hue (10.0.0.2)".to_string(),
        "Philips hue bridge 2015".to_string(),
        "001788aabbcc".to_string(),
        "uuid:2f402f80-da50-11e1-9b23-001788aabbcc".to_string(),
    )
}

fn bridge(url: &str) -> HueBridge {
    HueBridge::new(url.to_string(), device())
}

fn client(url: &str, username: Option<&str>) -> HueBridgeClient {
    HueBridgeClient::new(bridge(url).with_username(username.map(|u| u.to_string())))
}

#[test]
fn getters_give_back_the_description() {
    let b = bridge("http://10.0.0.2:80/");
    assert_eq!(b.get_name(), "Philips hue (10.0.0.2)");
    assert_eq!(b.get_model(), "Philips hue bridge 2015");
    assert_eq!(b.get_url(), "http://10.0.0.2:80/");
    assert_eq!(b.get_username(), None);
}

#[test]
fn set_username_attaches_the_credential() {
    let mut b = bridge("http://10.0.0.2:80/");
    b.set_username("abc".to_string());
    assert_eq!(b.get_username().map(|u| u.as_str()), Some("abc"));
    b.set_username("def".to_string());
    assert_eq!(b.get_username().map(|u| u.as_str()), Some("def"));
    assert_eq!(b.get_url(), "http://10.0.0.2:80/");
}

#[test]
fn with_username_replaces_the_credential() {
    let b = bridge("http://h/").with_username(Some("one".to_string()));
    assert_eq!(b.get_username().map(|u| u.as_str()), Some("one"));
    let b = b.with_username(None);
    assert_eq!(b.get_username(), None);
    assert_eq!(b.get_name(), "Philips hue (10.0.0.2)");
}

#[test]
fn endpoint_drops_the_trailing_slash_of_the_base() {
    assert_eq!(bridge("http://10.0.0.2:80/").get_endpoint(""), "http://10.0.0.2:80/api");
    assert_eq!(bridge("http://10.0.0.2:80").get_endpoint(""), "http://10.0.0.2:80/api");
    assert_eq!(bridge("http://10.0.0.2:80/").get_endpoint("/config"), "http://10.0.0.2:80/api/config");
}

#[test]
fn endpoint_drops_every_trailing_slash() {
    assert_eq!(bridge("http://h///").get_endpoint("/x"), "http://h/api/x");
    assert_eq!(bridge("///").get_endpoint(""), "/api");
    assert_eq!(bridge("").get_endpoint(""), "/api");
}

#[test]
fn endpoint_keeps_the_path_as_given() {
    assert_eq!(bridge("http://h/").get_endpoint("config"), "http://h/apiconfig");
    assert_eq!(bridge("http://h/").get_endpoint("//config/"), "http://h/api//config/");
}

#[test]
fn auth_endpoint_joins_base_credential_and_path() {
    let b = bridge("http://10.0.0.2:80/");
    assert_eq!(b.get_auth_endpoint("user", "/lights"), "http://10.0.0.2:80/api/user/lights");
    assert_eq!(b.get_auth_endpoint("user", "lights"), "http://10.0.0.2:80/api/user/lights");
    assert_eq!(
        b.get_auth_endpoint("user", "///lights/1/state"),
        "http://10.0.0.2:80/api/user/lights/1/state"
    );
    assert_eq!(b.get_auth_endpoint("user", ""), "http://10.0.0.2:80/api/user/");
    assert_eq!(b.get_auth_endpoint("", "/"), "http://10.0.0.2:80/api//");
}

#[test]
fn auth_endpoint_keeps_inner_and_trailing_slashes_of_the_path() {
    let b = bridge("http://h//");
    assert_eq!(b.get_auth_endpoint("u", "/a//b/"), "http://h/api/u/a//b/");
}

#[test]
fn endpoints_keep_characters_beyond_ascii() {
    let b = bridge("http://brücke/");
    assert_eq!(b.get_endpoint("/ä"), "http://brücke/api/ä");
    assert_eq!(b.get_auth_endpoint("ü", "/ö"), "http://brücke/api/ü/ö");
}

#[test]
fn description_url_appends_the_file_name() {
    assert_eq!(HueBridge::description_url("http://10.0.0.2:80/"), "http://10.0.0.2:80/description.xml");
    assert_eq!(HueBridge::description_url("http://h"), "http://hdescription.xml");
    assert_eq!(HueBridge::description_url(""), "description.xml");
}

#[test]
fn light_state_endpoint_writes_the_index_in_decimal() {
    let c = client("http://h/", Some("u"));
    assert_eq!(c.light_state_endpoint(1).as_deref(), Some("http://h/api/u/lights/1/state"));
    assert_eq!(c.light_state_endpoint(0).as_deref(), Some("http://h/api/u/lights/0/state"));
    assert_eq!(c.light_state_endpoint(10).as_deref(), Some("http://h/api/u/lights/10/state"));
    assert_eq!(c.light_state_endpoint(907).as_deref(), Some("http://h/api/u/lights/907/state"));
    assert_eq!(
        c.light_state_endpoint(1234567890).as_deref(),
        Some("http://h/api/u/lights/1234567890/state")
    );
}

#[test]
fn light_state_endpoint_needs_a_credential() {
    let c = client("http://h/", None);
    assert_eq!(c.light_state_endpoint(1), None);
    assert!(c.set_light_saturation(1, 100).is_none());
    let (_, params) = HueLightBatch::new(1).build();
    assert!(c.set_light_state(1, &params).is_none());
}

#[test]
fn set_light_saturation_clamps_into_one_to_254() {
    let c = client("http://h/", Some("u"));
    for (given, sent) in [(0u8, 1u8), (1, 1), (2, 2), (128, 128), (254, 254), (255, 254)] {
        let request = c.set_light_saturation(4, given).unwrap();
        assert_eq!(request.endpoint, "http://h/api/u/lights/4/state");
        assert_eq!(request.params.sat(), Some(sent));
        assert_eq!(request.params.len(), 1);
        assert_eq!(request.params.bri(), None);
        assert_eq!(request.params.hue(), None);
        assert_eq!(request.params.on(), None);
        assert_eq!(request.params.ct(), None);
        assert_eq!(request.params.transitiontime(), None);
    }
}

#[test]
fn set_light_state_sends_the_update_as_built() {
    let c = client("http://h/", Some("u"));
    let mut batch = HueLightBatch::new(9);
    batch.on(true);
    batch.hue(40000);
    let (index, params) = batch.build();
    let request = c.set_light_state(index, &params).unwrap();
    assert_eq!(request.endpoint, "http://h/api/u/lights/9/state");
    assert_eq!(request.params.on(), Some(true));
    assert_eq!(request.params.hue(), Some(40000));
    assert_eq!(request.params.len(), 2);
}

#[test]
fn client_hands_out_its_bridge() {
    let c = client("http://h/", Some("u"));
    assert_eq!(c.bridge().get_url(), "http://h/");
    assert_eq!(c.get_username().map(|u| u.as_str()), Some("u"));
    assert_eq!(client("http://h/", None).get_username(), None);
}
