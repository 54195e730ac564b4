//! A bridge as its description presents it, the URLs of its API, and the
//! bookkeeping of one search for bridges on the network.

use crate::text::{
    contains, occurs_in, opt_view, trim_end_of, trim_end_slashes, trim_start_of,
    trim_start_slashes,
};
use vstd::prelude::*;

verus! {

/// What the description of a bridge device holds.
pub struct HueBridgeDeviceView {
    pub friendly_name: Seq<char>,
    pub model_name: Seq<char>,
    pub serial_number: Seq<char>,
    pub udn: Seq<char>,
}

/// Hue Bridge Device.
#[derive(Debug)]
pub struct HueBridgeDevice {
    friendly_name: String,
    model_name: String,
    serial_number: String,
    udn: String,
}

impl View for HueBridgeDevice {
    type V = HueBridgeDeviceView;

    closed spec fn view(&self) -> HueBridgeDeviceView {
        HueBridgeDeviceView {
            friendly_name: self.friendly_name@,
            model_name: self.model_name@,
            serial_number: self.serial_number@,
            udn: self.udn@,
        }
    }
}

impl HueBridgeDevice {
    /// A device with the given description.
    pub fn new(friendly_name: String, model_name: String, serial_number: String, udn: String) -> (r:
        Self)
        ensures
            r@ == (HueBridgeDeviceView {
                friendly_name: friendly_name@,
                model_name: model_name@,
                serial_number: serial_number@,
                udn: udn@,
            }),
    {
        Self { friendly_name, model_name, serial_number, udn }
    }
}

/// What a bridge holds: its base URL, its device and the credential, if
/// one was attached.
pub struct HueBridgeView {
    pub url_base: Seq<char>,
    pub device: HueBridgeDeviceView,
    pub username: Option<Seq<char>>,
}

/// Hue Bridge.
#[derive(Debug)]
pub struct HueBridge {
    url_base: String,
    device: HueBridgeDevice,
    username: Option<String>,
}

impl View for HueBridge {
    type V = HueBridgeView;

    closed spec fn view(&self) -> HueBridgeView {
        HueBridgeView {
            url_base: self.url_base@,
            device: self.device@,
            username: opt_view(self.username),
        }
    }
}

/// The URL of an API endpoint that needs no credential: the base without
/// trailing slashes, `/api`, and the path as it is given.
pub open spec fn endpoint(base: Seq<char>, path: Seq<char>) -> Seq<char> {
    trim_end_of(base, '/') + seq!['/', 'a', 'p', 'i'] + path
}

/// The URL of an API endpoint under a credential: the base without
/// trailing slashes, `/api/`, the credential, `/`, and the path without
/// leading slashes.
pub open spec fn auth_endpoint(base: Seq<char>, username: Seq<char>, path: Seq<char>) -> Seq<
    char,
> {
    trim_end_of(base, '/') + seq!['/', 'a', 'p', 'i', '/'] + username + seq!['/'] + trim_start_of(
        path,
        '/',
    )
}

/// A base URL means the same with and without slashes at its end: they
/// are gone before the API path is put behind it.
pub proof fn lemma_base_slash_ignored(base: Seq<char>, username: Seq<char>, path: Seq<char>)
    ensures
        endpoint(base.push('/'), path) == endpoint(base, path),
        auth_endpoint(base.push('/'), username, path) == auth_endpoint(base, username, path),
        trim_end_of(base, '/').len() > 0 ==> trim_end_of(base, '/').last() != '/',
{
    assert(base.push('/').drop_last() =~= base);
    crate::text::lemma_trim_end(base, '/');
}

/// A path under a credential means the same with and without slashes at
/// its start: exactly one stands between credential and path.
pub proof fn lemma_path_slash_ignored(base: Seq<char>, username: Seq<char>, path: Seq<char>)
    ensures
        auth_endpoint(base, username, seq!['/'] + path) == auth_endpoint(base, username, path),
        trim_start_of(path, '/').len() > 0 ==> trim_start_of(path, '/').first() != '/',
{
    assert((seq!['/'] + path).drop_first() =~= path);
    crate::text::lemma_trim_start(path, '/');
}

/// The URL of the description of the bridge at `url`.
pub open spec fn description_of(url: Seq<char>) -> Seq<char> {
    url + seq!['d', 'e', 's', 'c', 'r', 'i', 'p', 't', 'i', 'o', 'n', '.', 'x', 'm', 'l']
}

/// The word by which the server header of a bridge is known.
pub open spec fn bridge_marker() -> Seq<char> {
    seq!['I', 'p', 'B', 'r', 'i', 'd', 'g', 'e']
}

impl HueBridge {
    /// A bridge at `url_base`, with no credential yet.
    pub fn new(url_base: String, device: HueBridgeDevice) -> (r: Self)
        ensures
            r@ == (HueBridgeView { url_base: url_base@, device: device@, username: None }),
    {
        Self { url_base, device, username: None }
    }

    /// Get the friendly name.
    pub fn get_name(&self) -> (r: &String)
        ensures
            r@ == self@.device.friendly_name,
    {
        &self.device.friendly_name
    }

    /// Get the base URL.
    pub fn get_url(&self) -> (r: &String)
        ensures
            r@ == self@.url_base,
    {
        &self.url_base
    }

    /// Get the model name.
    pub fn get_model(&self) -> (r: &String)
        ensures
            r@ == self@.device.model_name,
    {
        &self.device.model_name
    }

    /// Get the username.
    pub fn get_username(&self) -> (r: Option<&String>)
        ensures
            r is Some <==> self@.username is Some,
            r matches Some(name) ==> Some(name@) == self@.username,
    {
        self.username.as_ref()
    }

    /// Set the username.
    pub fn set_username(&mut self, username: String)
        ensures
            final(self)@ == (HueBridgeView { username: Some(username@), ..old(self)@ }),
    {
        self.username = Some(username);
    }

    /// The same bridge with `username` in place of its credential.
    pub fn with_username(self, username: Option<String>) -> (r: Self)
        ensures
            r@ == (HueBridgeView { username: opt_view(username), ..self@ }),
    {
        let mut bridge = self;
        bridge.username = username;
        bridge
    }

    /// Get an API endpoint relative to the base
    pub fn get_endpoint(&self, ep: &str) -> (r: String)
        ensures
            r@ == endpoint(self@.url_base, ep@),
    {
        proof {
            reveal_strlit("/api");
        }
        let mut url = String::from_str(trim_end_slashes(self.url_base.as_str()));
        url.append("/api");
        url.append(ep);
        assert("/api"@ =~= seq!['/', 'a', 'p', 'i']);
        url
    }

    /// Get an authenticated API endpoint relative to the base
    pub fn get_auth_endpoint(&self, username: &str, ep: &str) -> (r: String)
        ensures
            r@ == auth_endpoint(self@.url_base, username@, ep@),
    {
        proof {
            reveal_strlit("/api/");
            reveal_strlit("/");
        }
        let mut url = String::from_str(trim_end_slashes(self.url_base.as_str()));
        url.append("/api/");
        url.append(username);
        url.append("/");
        url.append(trim_start_slashes(ep));
        assert("/api/"@ =~= seq!['/', 'a', 'p', 'i', '/']);
        assert("/"@ =~= seq!['/']);
        url
    }

    /// The URL under which the bridge at `url` describes itself.
    pub fn description_url(url: &str) -> (r: String)
        ensures
            r@ == description_of(url@),
    {
        proof {
            reveal_strlit("description.xml");
        }
        let mut full = String::from_str(url);
        full.append("description.xml");
        assert("description.xml"@ =~= seq![
            'd',
            'e',
            's',
            'c',
            'r',
            'i',
            'p',
            't',
            'i',
            'o',
            'n',
            '.',
            'x',
            'm',
            'l',
        ]);
        full
    }

    /// Whether a server header is that of a bridge: it names `IpBridge`.
    pub fn is_bridge_server(server: &str) -> (r: bool)
        ensures
            r == occurs_in(bridge_marker(), server@),
    {
        proof {
            reveal_strlit("IpBridge");
        }
        assert("IpBridge"@ =~= bridge_marker());
        contains(server, "IpBridge")
    }
}

/// What each bridge of a list holds.
pub open spec fn bridge_views(bridges: Seq<HueBridge>) -> Seq<HueBridgeView> {
    bridges.map_values(|bridge: HueBridge| bridge@)
}

/// The characters of each string of a list.
pub open spec fn text_views(texts: Seq<String>) -> Seq<Seq<char>> {
    texts.map_values(|text: String| text@)
}

/// One search for bridges: the locations whose descriptions were
/// fetched, so that none is fetched twice, and the bridges found so far.
#[derive(Debug)]
pub struct UpnpScan {
    fetched: Vec<String>,
    bridges: Vec<HueBridge>,
}

impl UpnpScan {
    /// The locations whose descriptions were fetched, in that order.
    pub closed spec fn fetched(&self) -> Seq<Seq<char>> {
        text_views(self.fetched@)
    }

    /// The bridges found so far, in the order of their answers.
    pub closed spec fn bridges(&self) -> Seq<HueBridgeView> {
        bridge_views(self.bridges@)
    }

    /// Whether an answer with these headers is worth a fetch: it comes
    /// from a bridge, names a location, and that location was not fetched
    /// before.
    pub open spec fn wanted(&self, server: Option<&str>, location: Option<&str>) -> bool {
        &&& server matches Some(header) && occurs_in(bridge_marker(), header@)
        &&& location matches Some(url) && !self.fetched().contains(url@)
    }

    /// A search that has seen no answer yet.
    pub fn new() -> (r: Self)
        ensures
            r.fetched() == Seq::<Seq<char>>::empty(),
            r.bridges() == Seq::<HueBridgeView>::empty(),
    {
        let scan = UpnpScan { fetched: Vec::new(), bridges: Vec::new() };
        assert(scan.fetched() =~= Seq::<Seq<char>>::empty());
        assert(scan.bridges() =~= Seq::<HueBridgeView>::empty());
        scan
    }

    /// Decides whether to fetch the description that an answer points to,
    /// from its server and location headers.
    pub fn wants(&self, server: Option<&str>, location: Option<&str>) -> (r: bool)
        ensures
            r == self.wanted(server, location),
    {
        let from_bridge: bool = match server {
            Some(header) => HueBridge::is_bridge_server(header),
            None => false,
        };
        if !from_bridge {
            return false;
        }
        match location {
            None => false,
            Some(url) => {
                let wanted = String::from_str(url);
                let mut i: usize = 0;
                while i < self.fetched.len()
                    invariant
                        i <= self.fetched@.len(),
                        wanted@ == url@,
                        location == Some(url),
                        forall|k: int| 0 <= k < i ==> self.fetched@[k]@ != url@,
                    decreases self.fetched@.len() - i,
                {
                    if self.fetched[i] == wanted {
                        assert(self.fetched()[i as int] == url@);
                        assert(self.fetched().contains(url@));
                        return false;
                    }
                    i = i + 1;
                }
                assert forall|k: int| 0 <= k < self.fetched().len() implies self.fetched()[k]
                    != url@ by {
                    assert(self.fetched()[k] == self.fetched@[k]@);
                }
                true
            },
        }
    }

    /// Notes that the description at `location` was fetched.
    pub fn mark_fetched(&mut self, location: String)
        ensures
            final(self).fetched() == old(self).fetched().push(location@),
            final(self).bridges() == old(self).bridges(),
    {
        self.fetched.push(location);
        assert(self.fetched() =~= old(self).fetched().push(location@));
    }

    /// Takes in a bridge whose description was read.
    pub fn accept(&mut self, bridge: HueBridge)
        ensures
            final(self).bridges() == old(self).bridges().push(bridge@),
            final(self).fetched() == old(self).fetched(),
    {
        self.bridges.push(bridge);
        assert(self.bridges() =~= old(self).bridges().push(bridge@));
    }

    /// Ends the search: the bridges found, or `None` where there is none.
    pub fn finish(self) -> (r: Option<Vec<HueBridge>>)
        ensures
            r is None <==> self.bridges().len() == 0,
            r matches Some(found) ==> bridge_views(found@) == self.bridges(),
    {
        if self.bridges.len() == 0 {
            None
        } else {
            Some(self.bridges)
        }
    }
}

} // verus!
