//! From what was asked for on the command line to what is sent: the
//! update of a one-shot command, and the parameters of an effect.

use crate::effects::fireplace::FireplaceSimulation;
use crate::hue_light::{
    clamped_brightness, clamped_saturation, HueLight, HueLightBatch, LightFields,
};
use vstd::prelude::*;

verus! {

/// The fields that a one-shot command names; each is absent where its
/// flag was not given.
#[derive(Clone, Copy, Debug)]
pub struct LightFlags {
    pub bri: Option<u8>,
    pub sat: Option<u8>,
    pub hue: Option<u16>,
    pub tt: Option<u16>,
}

impl LightFlags {
    /// The fields of the update for these flags: what was given, brought
    /// into range, and nothing else.
    pub open spec fn fields(self) -> LightFields {
        LightFields {
            on: None,
            ct: None,
            bri: match self.bri {
                Some(bri) => Some(clamped_brightness(bri)),
                None => None,
            },
            sat: match self.sat {
                Some(sat) => Some(clamped_saturation(sat)),
                None => None,
            },
            hue: self.hue,
            transitiontime: self.tt,
        }
    }
}

/// The update that a one-shot command sends to `light`: only the fields
/// whose flags were given.
pub fn light_batch(light: usize, flags: &LightFlags) -> (batch: HueLightBatch)
    ensures
        batch.light() == light,
        batch@ == flags.fields(),
{
    let mut batch = HueLightBatch::new(light);
    if let Some(bri) = flags.bri {
        batch.brightness(bri);
    }
    if let Some(sat) = flags.sat {
        batch.saturation(sat);
    }
    if let Some(hue) = flags.hue {
        batch.hue(hue);
    }
    if let Some(tt) = flags.tt {
        batch.transition_time(tt);
    }
    batch
}

/// The updates of a one-shot command: the same fields for each of
/// `lights`, in the order of the listing.
pub fn light_batches(lights: &Vec<HueLight>, flags: &LightFlags) -> (r: Vec<HueLightBatch>)
    ensures
        r@.len() == lights@.len(),
        forall|k: int|
            0 <= k < r@.len() ==> (#[trigger] r@[k]).light() == lights@[k]@.index && r@[k]@
                == flags.fields(),
{
    let mut out: Vec<HueLightBatch> = Vec::new();
    let mut i: usize = 0;
    while i < lights.len()
        invariant
            i <= lights@.len(),
            out@.len() == i,
            forall|k: int|
                0 <= k < i ==> (#[trigger] out@[k]).light() == lights@[k]@.index && out@[k]@
                    == flags.fields(),
        decreases lights@.len() - i,
    {
        out.push(light_batch(lights[i].index(), flags));
        i = i + 1;
    }
    out
}

/// The parameters of the fireplace that a command names; each is absent
/// where its flag was not given or held no number.
#[derive(Clone, Copy, Debug)]
pub struct FireplaceFlags {
    pub brightness_base: Option<u8>,
    pub brightness_variance: Option<u8>,
    pub brightness_spark_base: Option<u8>,
    pub brightness_spark_variance: Option<u8>,
    pub saturation_base: Option<u8>,
    pub saturation_variance: Option<u8>,
    pub saturation_spark_base: Option<u8>,
    pub saturation_spark_variance: Option<u8>,
    pub transition_time_base: Option<u8>,
    pub transition_time_variance: Option<u8>,
    pub spark_per_million: Option<u32>,
}

/// The value of a flag, or `default` where the flag is absent.
pub open spec fn or_default<T>(flag: Option<T>, default: T) -> T {
    match flag {
        Some(value) => value,
        None => default,
    }
}

impl FireplaceFlags {
    /// The parameters that these flags stand for: each flag that was
    /// given, and the standard value of each that was not.
    pub open spec fn resolved(self) -> FireplaceSimulation {
        let standard = FireplaceSimulation::standard();
        FireplaceSimulation {
            brightness_base: or_default(self.brightness_base, standard.brightness_base),
            brightness_variance: or_default(self.brightness_variance, standard.brightness_variance),
            brightness_spark_base: or_default(
                self.brightness_spark_base,
                standard.brightness_spark_base,
            ),
            brightness_spark_variance: or_default(
                self.brightness_spark_variance,
                standard.brightness_spark_variance,
            ),
            saturation_base: or_default(self.saturation_base, standard.saturation_base),
            saturation_variance: or_default(self.saturation_variance, standard.saturation_variance),
            saturation_spark_base: or_default(
                self.saturation_spark_base,
                standard.saturation_spark_base,
            ),
            saturation_spark_variance: or_default(
                self.saturation_spark_variance,
                standard.saturation_spark_variance,
            ),
            transition_time_base: or_default(
                self.transition_time_base,
                standard.transition_time_base,
            ),
            transition_time_variance: or_default(
                self.transition_time_variance,
                standard.transition_time_variance,
            ),
            spark_per_million: or_default(self.spark_per_million, standard.spark_per_million),
        }
    }

    /// The parameters of the fireplace for these flags.
    pub fn resolve(&self) -> (r: FireplaceSimulation)
        ensures
            r == self.resolved(),
    {
        let standard = FireplaceSimulation::default();
        FireplaceSimulation {
            brightness_base: self.brightness_base.unwrap_or(standard.brightness_base),
            brightness_variance: self.brightness_variance.unwrap_or(standard.brightness_variance),
            brightness_spark_base: self.brightness_spark_base.unwrap_or(
                standard.brightness_spark_base,
            ),
            brightness_spark_variance: self.brightness_spark_variance.unwrap_or(
                standard.brightness_spark_variance,
            ),
            saturation_base: self.saturation_base.unwrap_or(standard.saturation_base),
            saturation_variance: self.saturation_variance.unwrap_or(standard.saturation_variance),
            saturation_spark_base: self.saturation_spark_base.unwrap_or(
                standard.saturation_spark_base,
            ),
            saturation_spark_variance: self.saturation_spark_variance.unwrap_or(
                standard.saturation_spark_variance,
            ),
            transition_time_base: self.transition_time_base.unwrap_or(
                standard.transition_time_base,
            ),
            transition_time_variance: self.transition_time_variance.unwrap_or(
                standard.transition_time_variance,
            ),
            spark_per_million: self.spark_per_million.unwrap_or(standard.spark_per_million),
        }
    }
}

} // verus!
