//! Lights as a bridge reports them, and the sparse state updates sent back.

use crate::text::opt_view;
use vstd::prelude::*;

verus! {

/// What a reported light state holds.
pub struct HueLightStateView {
    pub on: bool,
    pub bri: u8,
    pub hue: u16,
    pub sat: u8,
    pub effect: Seq<char>,
    pub ct: u16,
    pub alert: Seq<char>,
    pub colormode: Option<Seq<char>>,
    pub reachable: bool,
}

/// The state of a light as the bridge last reported it.
#[derive(Debug)]
pub struct HueLightState {
    /// State of the light
    on: bool,
    /// Brightness, from 1 to 254
    bri: u8,
    /// Hue, from 0 to 65535
    hue: u16,
    /// Saturation, from 0 to 254
    sat: u8,
    /// Dynamic effect, either 'none' or 'colorloop'
    effect: String,
    /// Color temperature
    ct: u16,
    /// Alert effect, either 'none', 'select' or 'lselect'
    alert: String,
    /// Color mode, either 'hs', 'xy' or 'ct'
    colormode: Option<String>,
    /// Whether the light is reachable
    reachable: bool,
}

impl View for HueLightState {
    type V = HueLightStateView;

    closed spec fn view(&self) -> HueLightStateView {
        HueLightStateView {
            on: self.on,
            bri: self.bri,
            hue: self.hue,
            sat: self.sat,
            effect: self.effect@,
            ct: self.ct,
            alert: self.alert@,
            colormode: opt_view(self.colormode),
            reachable: self.reachable,
        }
    }
}

impl HueLightState {
    /// Puts a reported state together from its parts.
    pub fn new(
        on: bool,
        bri: u8,
        hue: u16,
        sat: u8,
        effect: String,
        ct: u16,
        alert: String,
        colormode: Option<String>,
        reachable: bool,
    ) -> (r: Self)
        ensures
            r@ == (HueLightStateView {
                on,
                bri,
                hue,
                sat,
                effect: effect@,
                ct,
                alert: alert@,
                colormode: opt_view(colormode),
                reachable,
            }),
    {
        Self { on, bri, hue, sat, effect, ct, alert, colormode, reachable }
    }

    /// Whether the light is switched on.
    pub fn is_on(&self) -> (r: bool)
        ensures
            r == self@.on,
    {
        self.on
    }
}

/// What a light holds: the index that its bridge gave it, its state and
/// the texts that describe the device.
pub struct HueLightView {
    pub index: usize,
    pub state: HueLightStateView,
    pub kind: Seq<char>,
    pub name: Seq<char>,
    pub model_id: Seq<char>,
    pub manufacturer_name: Seq<char>,
    pub product_name: Seq<char>,
    pub unique_id: Seq<char>,
    pub sw_version: Seq<char>,
}

/// A light known to a bridge.
#[derive(Debug)]
pub struct HueLight {
    /// Index under which the bridge lists the light
    index: usize,
    /// State
    state: HueLightState,
    /// Light type
    kind: String,
    /// Light name
    name: String,
    /// Hardware model
    model_id: String,
    /// Manufacturer name
    manufacturer_name: String,
    /// Product name
    product_name: String,
    /// Unique ID
    unique_id: String,
    /// Software version
    sw_version: String,
}

impl View for HueLight {
    type V = HueLightView;

    closed spec fn view(&self) -> HueLightView {
        HueLightView {
            index: self.index,
            state: self.state@,
            kind: self.kind@,
            name: self.name@,
            model_id: self.model_id@,
            manufacturer_name: self.manufacturer_name@,
            product_name: self.product_name@,
            unique_id: self.unique_id@,
            sw_version: self.sw_version@,
        }
    }
}

impl HueLight {
    /// Puts a light together from the index under which the bridge lists
    /// it and the parts of its description.
    pub fn new(
        index: usize,
        state: HueLightState,
        kind: String,
        name: String,
        model_id: String,
        manufacturer_name: String,
        product_name: String,
        unique_id: String,
        sw_version: String,
    ) -> (r: Self)
        ensures
            r@ == (HueLightView {
                index,
                state: state@,
                kind: kind@,
                name: name@,
                model_id: model_id@,
                manufacturer_name: manufacturer_name@,
                product_name: product_name@,
                unique_id: unique_id@,
                sw_version: sw_version@,
            }),
    {
        Self {
            index,
            state,
            kind,
            name,
            model_id,
            manufacturer_name,
            product_name,
            unique_id,
            sw_version,
        }
    }

    /// The name that the user gave the light.
    pub fn get_name(&self) -> (r: &String)
        ensures
            r@ == self@.name,
    {
        &self.name
    }

    /// The index under which the bridge lists the light.
    pub fn index(&self) -> (r: usize)
        ensures
            r == self@.index,
    {
        self.index
    }

    /// The state that the bridge reported.
    pub fn state(&self) -> (r: &HueLightState)
        ensures
            r@ == self@.state,
    {
        &self.state
    }

    /// Whether the light is switched on.
    pub fn is_on(&self) -> (r: bool)
        ensures
            r == self@.state.on,
    {
        self.state.is_on()
    }
}

/// The indices of the lights that are switched off, in the order of the
/// listing.
pub open spec fn dark_lights(lights: Seq<HueLight>) -> Seq<usize>
    decreases lights.len(),
{
    if lights.len() == 0 {
        Seq::empty()
    } else if lights.last()@.state.on {
        dark_lights(lights.drop_last())
    } else {
        dark_lights(lights.drop_last()).push(lights.last()@.index)
    }
}

/// The recognised fields of a state update, each present or absent.
pub struct LightFields {
    pub on: Option<bool>,
    pub ct: Option<u16>,
    pub bri: Option<u8>,
    pub sat: Option<u8>,
    pub hue: Option<u16>,
    pub transitiontime: Option<u16>,
}

impl LightFields {
    /// The update that names no field.
    pub open spec fn none() -> LightFields {
        LightFields { on: None, ct: None, bri: None, sat: None, hue: None, transitiontime: None }
    }

    /// Brightness and saturation, where present, lie in the ranges that a
    /// bridge documents: `1..=254` and `0..=254`.
    pub open spec fn in_range(self) -> bool {
        &&& self.bri matches Some(b) ==> 1 <= b <= 254
        &&& self.sat matches Some(s) ==> s <= 254
    }

    /// The number of fields that are present.
    pub open spec fn len(self) -> nat {
        let on: nat = if self.on is Some { 1 } else { 0 };
        let ct: nat = if self.ct is Some { 1 } else { 0 };
        let bri: nat = if self.bri is Some { 1 } else { 0 };
        let sat: nat = if self.sat is Some { 1 } else { 0 };
        let hue: nat = if self.hue is Some { 1 } else { 0 };
        let tt: nat = if self.transitiontime is Some { 1 } else { 0 };
        on + ct + bri + sat + hue + tt
    }
}

/// The value of a field as it goes over the wire: a flag or a number.
#[derive(Clone, Copy, Debug, PartialEq, Eq, Structural)]
pub enum LightValue {
    Flag(bool),
    Number(u16),
}

/// The entry of a field under its name on the wire, where the field is
/// present.
pub open spec fn wire_entry(name: Seq<char>, value: Option<LightValue>) -> Seq<
    (Seq<char>, LightValue),
> {
    match value {
        Some(value) => seq![(name, value)],
        None => Seq::empty(),
    }
}

/// The number of a field as it goes over the wire.
pub open spec fn wire_number(value: Option<u16>) -> Option<LightValue> {
    match value {
        Some(n) => Some(LightValue::Number(n)),
        None => None,
    }
}

/// The number of a one-byte field as it goes over the wire.
pub open spec fn wire_byte(value: Option<u8>) -> Option<LightValue> {
    match value {
        Some(n) => Some(LightValue::Number(n as u16)),
        None => None,
    }
}

/// The flag of a field as it goes over the wire.
pub open spec fn wire_flag(value: Option<bool>) -> Option<LightValue> {
    match value {
        Some(b) => Some(LightValue::Flag(b)),
        None => None,
    }
}

impl LightFields {
    /// The fields that are present, each under the name that a bridge
    /// knows it by: `on`, `ct`, `bri`, `sat`, `hue` and `transitiontime`,
    /// in this order.
    pub open spec fn wire(self) -> Seq<(Seq<char>, LightValue)> {
        wire_entry(seq!['o', 'n'], wire_flag(self.on)) + wire_entry(
            seq!['c', 't'],
            wire_number(self.ct),
        ) + wire_entry(seq!['b', 'r', 'i'], wire_byte(self.bri)) + wire_entry(
            seq!['s', 'a', 't'],
            wire_byte(self.sat),
        ) + wire_entry(seq!['h', 'u', 'e'], wire_number(self.hue)) + wire_entry(
            seq!['t', 'r', 'a', 'n', 's', 'i', 't', 'i', 'o', 'n', 't', 'i', 'm', 'e'],
            wire_number(self.transitiontime),
        )
    }
}

/// What each entry of a list holds: the characters of its name, and its
/// value.
pub open spec fn entry_views(entries: Seq<(&'static str, LightValue)>) -> Seq<
    (Seq<char>, LightValue),
> {
    entries.map_values(|entry: (&'static str, LightValue)| (entry.0@, entry.1))
}

/// The brightness nearest to `val` that a bridge accepts.
pub open spec fn clamped_brightness(val: u8) -> u8 {
    if val < 1 {
        1
    } else if val > 254 {
        254
    } else {
        val
    }
}

/// The saturation nearest to `val` that a bridge accepts.
pub open spec fn clamped_saturation(val: u8) -> u8 {
    if val > 254 {
        254
    } else {
        val
    }
}

/// Brings a brightness into `1..=254`.
pub fn clamp_brightness(val: u8) -> (r: u8)
    ensures
        r == clamped_brightness(val),
{
    if val < 1 {
        1
    } else if val > 254 {
        254
    } else {
        val
    }
}

/// Brings a saturation into `0..=254`.
pub fn clamp_saturation(val: u8) -> (r: u8)
    ensures
        r == clamped_saturation(val),
{
    if val > 254 {
        254
    } else {
        val
    }
}

/// A built state update: what is sent to the bridge for one light.
#[derive(Clone, Copy, Debug)]
pub struct HueLightParams {
    on: Option<bool>,
    ct: Option<u16>,
    bri: Option<u8>,
    sat: Option<u8>,
    hue: Option<u16>,
    transitiontime: Option<u16>,
}

impl View for HueLightParams {
    type V = LightFields;

    closed spec fn view(&self) -> LightFields {
        LightFields {
            on: self.on,
            ct: self.ct,
            bri: self.bri,
            sat: self.sat,
            hue: self.hue,
            transitiontime: self.transitiontime,
        }
    }
}

impl HueLightParams {
    #[verifier::type_invariant]
    spec fn ranged(self) -> bool {
        self@.in_range()
    }

    fn empty() -> (r: HueLightParams)
        ensures
            r@ == LightFields::none(),
    {
        HueLightParams { on: None, ct: None, bri: None, sat: None, hue: None, transitiontime: None }
    }

    /// The power state, if the update sets it.
    pub fn on(&self) -> (r: Option<bool>)
        ensures
            r == self@.on,
    {
        self.on
    }

    /// The colour temperature, if the update sets it.
    pub fn ct(&self) -> (r: Option<u16>)
        ensures
            r == self@.ct,
    {
        self.ct
    }

    /// The brightness, if the update sets it; always within `1..=254`.
    pub fn bri(&self) -> (r: Option<u8>)
        ensures
            r == self@.bri,
            self@.in_range(),
    {
        proof {
            use_type_invariant(self);
        }
        self.bri
    }

    /// The saturation, if the update sets it; always within `0..=254`.
    pub fn sat(&self) -> (r: Option<u8>)
        ensures
            r == self@.sat,
            self@.in_range(),
    {
        proof {
            use_type_invariant(self);
        }
        self.sat
    }

    /// The hue, if the update sets it.
    pub fn hue(&self) -> (r: Option<u16>)
        ensures
            r == self@.hue,
    {
        self.hue
    }

    /// The transition time in deciseconds, if the update sets it.
    pub fn transitiontime(&self) -> (r: Option<u16>)
        ensures
            r == self@.transitiontime,
    {
        self.transitiontime
    }

    /// The fields that the update sets, each under its name on the wire.
    pub fn entries(&self) -> (r: Vec<(&'static str, LightValue)>)
        ensures
            entry_views(r@) == self@.wire(),
    {
        proof {
            reveal_strlit("on");
            reveal_strlit("ct");
            reveal_strlit("bri");
            reveal_strlit("sat");
            reveal_strlit("hue");
            reveal_strlit("transitiontime");
        }
        assert("on"@ =~= seq!['o', 'n']);
        assert("ct"@ =~= seq!['c', 't']);
        assert("bri"@ =~= seq!['b', 'r', 'i']);
        assert("sat"@ =~= seq!['s', 'a', 't']);
        assert("hue"@ =~= seq!['h', 'u', 'e']);
        assert("transitiontime"@ =~= seq![
            't',
            'r',
            'a',
            'n',
            's',
            'i',
            't',
            'i',
            'o',
            'n',
            't',
            'i',
            'm',
            'e',
        ]);
        let mut out: Vec<(&'static str, LightValue)> = Vec::new();
        assert(entry_views(out@) =~= Seq::empty());
        if let Some(on) = self.on {
            let ghost before = out@;
            out.push(("on", LightValue::Flag(on)));
            assert(entry_views(out@) =~= entry_views(before) + wire_entry(
                seq!['o', 'n'],
                wire_flag(self.on),
            ));
        }
        if let Some(ct) = self.ct {
            let ghost before = out@;
            out.push(("ct", LightValue::Number(ct)));
            assert(entry_views(out@) =~= entry_views(before) + wire_entry(
                seq!['c', 't'],
                wire_number(self.ct),
            ));
        }
        if let Some(bri) = self.bri {
            let ghost before = out@;
            out.push(("bri", LightValue::Number(bri as u16)));
            assert(entry_views(out@) =~= entry_views(before) + wire_entry(
                seq!['b', 'r', 'i'],
                wire_byte(self.bri),
            ));
        }
        if let Some(sat) = self.sat {
            let ghost before = out@;
            out.push(("sat", LightValue::Number(sat as u16)));
            assert(entry_views(out@) =~= entry_views(before) + wire_entry(
                seq!['s', 'a', 't'],
                wire_byte(self.sat),
            ));
        }
        if let Some(hue) = self.hue {
            let ghost before = out@;
            out.push(("hue", LightValue::Number(hue)));
            assert(entry_views(out@) =~= entry_views(before) + wire_entry(
                seq!['h', 'u', 'e'],
                wire_number(self.hue),
            ));
        }
        if let Some(tt) = self.transitiontime {
            let ghost before = out@;
            out.push(("transitiontime", LightValue::Number(tt)));
            assert(entry_views(out@) =~= entry_views(before) + wire_entry(
                seq!['t', 'r', 'a', 'n', 's', 'i', 't', 'i', 'o', 'n', 't', 'i', 'm', 'e'],
                wire_number(self.transitiontime),
            ));
        }
        assert(entry_views(out@) =~= self@.wire());
        out
    }

    /// The number of fields that the update sets.
    pub fn len(&self) -> (n: usize)
        ensures
            n == self@.len(),
    {
        let mut n: usize = 0;
        if self.on.is_some() {
            n = n + 1;
        }
        if self.ct.is_some() {
            n = n + 1;
        }
        if self.bri.is_some() {
            n = n + 1;
        }
        if self.sat.is_some() {
            n = n + 1;
        }
        if self.hue.is_some() {
            n = n + 1;
        }
        if self.transitiontime.is_some() {
            n = n + 1;
        }
        n
    }
}

/// A state update under construction, addressed to one light. Building
/// it uses it up.
#[derive(Debug)]
pub struct HueLightBatch {
    index: usize,
    params: HueLightParams,
}

impl View for HueLightBatch {
    type V = LightFields;

    closed spec fn view(&self) -> LightFields {
        self.params@
    }
}

impl HueLightBatch {
    /// The index of the light that the batch is addressed to.
    pub closed spec fn light(&self) -> usize {
        self.index
    }

    /// Construct a new `HueLightBatch`.
    pub fn new(light_index: usize) -> (r: Self)
        ensures
            r.light() == light_index,
            r@ == LightFields::none(),
    {
        Self { index: light_index, params: HueLightParams::empty() }
    }

    /// Get the light index and the fields that were set.
    pub fn build(self) -> (r: (usize, HueLightParams))
        ensures
            r.0 == self.light(),
            r.1@ == self@,
            self@.in_range(),
    {
        proof {
            use_type_invariant(&self.params);
        }
        (self.index, self.params)
    }

    /// Sets the power state.
    pub fn on(&mut self, val: bool) -> (r: &mut Self)
        ensures
            r.light() == old(self).light(),
            r@ == (LightFields { on: Some(val), ..old(self)@ }),
            *final(self) == *final(r),
    {
        proof {
            use_type_invariant(&self.params);
        }
        self.params.on = Some(val);
        self
    }
    /// Sets the colour temperature.
    pub fn temperature(&mut self, val: u16) -> (r: &mut Self)
        ensures
            r.light() == old(self).light(),
            r@ == (LightFields { ct: Some(val), ..old(self)@ }),
            *final(self) == *final(r),
    {
        proof {
            use_type_invariant(&self.params);
        }
        self.params.ct = Some(val);
        self
    }

    /// Sets the brightness, brought into `1..=254`.
    pub fn brightness(&mut self, val: u8) -> (r: &mut Self)
        ensures
            r.light() == old(self).light(),
            r@ == (LightFields { bri: Some(clamped_brightness(val)), ..old(self)@ }),
            *final(self) == *final(r),
    {
        proof {
            use_type_invariant(&self.params);
        }
        self.params.bri = Some(clamp_brightness(val));
        self
    }

    /// Sets the saturation, brought into `0..=254`.
    pub fn saturation(&mut self, val: u8) -> (r: &mut Self)
        ensures
            r.light() == old(self).light(),
            r@ == (LightFields { sat: Some(clamped_saturation(val)), ..old(self)@ }),
            *final(self) == *final(r),
    {
        proof {
            use_type_invariant(&self.params);
        }
        self.params.sat = Some(clamp_saturation(val));
        self
    }

    /// Sets the hue.
    pub fn hue(&mut self, val: u16) -> (r: &mut Self)
        ensures
            r.light() == old(self).light(),
            r@ == (LightFields { hue: Some(val), ..old(self)@ }),
            *final(self) == *final(r),
    {
        proof {
            use_type_invariant(&self.params);
        }
        self.params.hue = Some(val);
        self
    }

    /// Sets the transition time, in deciseconds.
    pub fn transition_time(&mut self, val: u16) -> (r: &mut Self)
        ensures
            r.light() == old(self).light(),
            r@ == (LightFields { transitiontime: Some(val), ..old(self)@ }),
            *final(self) == *final(r),
    {
        proof {
            use_type_invariant(&self.params);
        }
        self.params.transitiontime = Some(val);
        self
    }
}

} // verus!
