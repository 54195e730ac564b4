//! A fireplace: each light flickers on its own, now and then a spark.

use crate::dice::Dice;
use crate::hue_light::{
    clamped_brightness, clamped_saturation, dark_lights, HueLight, HueLightBatch, LightFields,
};
use vstd::prelude::*;

verus! {

/// In how many parts of a million a spark probability is counted.
pub const SPARK_SCALE: u32 = 1_000_000;

/// A half-open range of values: `low` is in it, `high` is not.
pub struct Span {
    pub low: int,
    pub high: int,
}

impl Span {
    /// Whether `v` lies in the range.
    pub open spec fn contains(self, v: int) -> bool {
        self.low <= v < self.high
    }

    /// Whether the range holds no value.
    pub open spec fn is_empty(self) -> bool {
        self.low >= self.high
    }
}

/// The values within `variance` of `base`, no lower than `floor` and no
/// higher than 254.
pub open spec fn span_around(base: u8, variance: u8, floor: u8) -> Span {
    Span {
        low: if base - variance < floor {
            floor as int
        } else {
            base - variance
        },
        high: if base + variance + 1 > 255 {
            255
        } else {
            base + variance + 1
        },
    }
}

/// A range of bytes that holds at least one value.
#[derive(Clone, Copy, Debug)]
pub struct Band {
    low: u8,
    high: u8,
}

impl View for Band {
    type V = Span;

    closed spec fn view(&self) -> Span {
        Span { low: self.low as int, high: self.high as int }
    }
}

impl Band {
    #[verifier::type_invariant]
    spec fn inhabited(self) -> bool {
        self.low < self.high
    }

    /// The band around `base`, or `None` where no value is left in it.
    pub fn around(base: u8, variance: u8, floor: u8) -> (r: Option<Band>)
        ensures
            r is Some <==> !span_around(base, variance, floor).is_empty(),
            r matches Some(band) ==> band@ == span_around(base, variance, floor),
    {
        let below: u8 = base.saturating_sub(variance);
        let low: u8 = if below < floor {
            floor
        } else {
            below
        };
        let high: u8 = base.saturating_add(variance.saturating_add(1));
        if low < high {
            Some(Band { low, high })
        } else {
            None
        }
    }

    /// The lowest value of the band.
    pub fn low(&self) -> (r: u8)
        ensures
            r == self@.low,
            !self@.is_empty(),
    {
        proof {
            use_type_invariant(self);
        }
        self.low
    }

    /// The first value above the band.
    pub fn high(&self) -> (r: u8)
        ensures
            r == self@.high,
            !self@.is_empty(),
    {
        proof {
            use_type_invariant(self);
        }
        self.high
    }

    /// Draws a value of the band.
    pub fn draw(&self, dice: &mut Dice) -> (r: u8)
        ensures
            self@.contains(r as int),
    {
        proof {
            use_type_invariant(self);
        }
        dice.byte(self.low, self.high)
    }
}

/// The parameters of the fireplace: a base and a variance for each
/// quantity, apart for sparks, and how often a spark flies.
#[derive(Clone, Copy, Debug)]
pub struct FireplaceSimulation {
    pub brightness_base: u8,
    pub brightness_variance: u8,
    pub brightness_spark_base: u8,
    pub brightness_spark_variance: u8,
    pub saturation_base: u8,
    pub saturation_variance: u8,
    pub saturation_spark_base: u8,
    pub saturation_spark_variance: u8,
    pub transition_time_base: u8,
    pub transition_time_variance: u8,
    /// The chance of a spark in each frame, in parts of a million.
    pub spark_per_million: u32,
}

/// What the validated parameters hold: the range of each quantity and the
/// spark chance.
pub struct BoundsView {
    pub brightness: Span,
    pub brightness_spark: Span,
    pub saturation: Span,
    pub saturation_spark: Span,
    pub transition: Span,
    pub spark_per_million: u32,
}

impl BoundsView {
    /// Every range holds a value, and the chance is at most one.
    pub open spec fn drawable(self) -> bool {
        &&& !self.brightness.is_empty()
        &&& !self.brightness_spark.is_empty()
        &&& !self.saturation.is_empty()
        &&& !self.saturation_spark.is_empty()
        &&& !self.transition.is_empty()
        &&& self.spark_per_million <= SPARK_SCALE
    }
}

impl FireplaceSimulation {
    /// The parameters of a quiet fire: one spark in a hundred frames.
    pub open spec fn standard() -> FireplaceSimulation {
        FireplaceSimulation {
            brightness_base: 70,
            brightness_variance: 10,
            brightness_spark_base: 110,
            brightness_spark_variance: 10,
            saturation_base: 247,
            saturation_variance: 7,
            saturation_spark_base: 227,
            saturation_spark_variance: 27,
            transition_time_base: 3,
            transition_time_variance: 2,
            spark_per_million: 10_000,
        }
    }

    /// The ranges that the parameters stand for, the spark chance cut at
    /// one.
    pub open spec fn spans(self) -> BoundsView {
        BoundsView {
            brightness: span_around(self.brightness_base, self.brightness_variance, 1),
            brightness_spark: span_around(
                self.brightness_spark_base,
                self.brightness_spark_variance,
                1,
            ),
            saturation: span_around(self.saturation_base, self.saturation_variance, 1),
            saturation_spark: span_around(
                self.saturation_spark_base,
                self.saturation_spark_variance,
                1,
            ),
            transition: span_around(self.transition_time_base, self.transition_time_variance, 0),
            spark_per_million: if self.spark_per_million > SPARK_SCALE {
                SPARK_SCALE
            } else {
                self.spark_per_million
            },
        }
    }

    /// Validates the parameters: the range of each quantity, cut to what a
    /// bridge accepts. `None` where a range is left without a value, so
    /// that no frame could be drawn.
    pub fn bounds(&self) -> (r: Option<FireplaceBounds>)
        ensures
            r is Some <==> self.spans().drawable(),
            r matches Some(b) ==> b@ == self.spans(),
    {
        let brightness = Band::around(self.brightness_base, self.brightness_variance, 1);
        let brightness_spark = Band::around(
            self.brightness_spark_base,
            self.brightness_spark_variance,
            1,
        );
        let saturation = Band::around(self.saturation_base, self.saturation_variance, 1);
        let saturation_spark = Band::around(
            self.saturation_spark_base,
            self.saturation_spark_variance,
            1,
        );
        let transition = Band::around(self.transition_time_base, self.transition_time_variance, 0);
        let spark_per_million: u32 = if self.spark_per_million > SPARK_SCALE {
            SPARK_SCALE
        } else {
            self.spark_per_million
        };
        match (brightness, brightness_spark, saturation, saturation_spark, transition) {
            (
                Some(brightness),
                Some(brightness_spark),
                Some(saturation),
                Some(saturation_spark),
                Some(transition),
            ) => Some(
                FireplaceBounds {
                    brightness,
                    brightness_spark,
                    saturation,
                    saturation_spark,
                    transition,
                    spark_per_million,
                },
            ),
            _ => None,
        }
    }
}

impl Default for FireplaceSimulation {
    fn default() -> (r: Self)
        ensures
            r == FireplaceSimulation::standard(),
    {
        Self {
            brightness_base: 70,
            brightness_variance: 10,
            brightness_spark_base: 110,
            brightness_spark_variance: 10,
            saturation_base: 247,
            saturation_variance: 7,
            saturation_spark_base: 227,
            saturation_spark_variance: 27,
            transition_time_base: 3,
            transition_time_variance: 2,
            spark_per_million: 10_000,
        }
    }
}

/// Validated fireplace parameters: every range holds a value.
#[derive(Clone, Copy, Debug)]
pub struct FireplaceBounds {
    brightness: Band,
    brightness_spark: Band,
    saturation: Band,
    saturation_spark: Band,
    transition: Band,
    spark_per_million: u32,
}

impl FireplaceBounds {
    #[verifier::type_invariant]
    spec fn sendable(self) -> bool {
        &&& self.spark_per_million <= SPARK_SCALE
        &&& self.brightness@.low >= 1
        &&& self.brightness_spark@.low >= 1
    }
}

impl View for FireplaceBounds {
    type V = BoundsView;

    closed spec fn view(&self) -> BoundsView {
        BoundsView {
            brightness: self.brightness@,
            brightness_spark: self.brightness_spark@,
            saturation: self.saturation@,
            saturation_spark: self.saturation_spark@,
            transition: self.transition@,
            spark_per_million: self.spark_per_million,
        }
    }
}

/// One frame of the fire for one light: the update to send, whether it is
/// a spark, and the transition time in deciseconds, after which the next
/// frame of that light is due.
#[derive(Debug)]
pub struct FireplaceFrame {
    pub batch: HueLightBatch,
    pub spark: bool,
    pub transition: u16,
}

/// The transition time of a frame: a spark is instant.
pub open spec fn frame_transition(spark: bool, tt: u16) -> u16 {
    if spark {
        0
    } else {
        tt
    }
}

/// The fields of a frame's update: hue, saturation, brightness and
/// transition time, and no other.
pub open spec fn frame_fields(spark: bool, hue: u16, sat: u8, bri: u8, tt: u16) -> LightFields {
    LightFields {
        on: None,
        ct: None,
        bri: Some(clamped_brightness(bri)),
        sat: Some(clamped_saturation(sat)),
        hue: Some(hue),
        transitiontime: Some(frame_transition(spark, tt)),
    }
}

impl BoundsView {
    /// Whether `frame` is a frame for `light` that these parameters allow:
    /// each quantity within the range of the state, normal or spark, that
    /// the frame is in.
    pub open spec fn allows(self, light: usize, frame: FireplaceFrame) -> bool {
        &&& frame.batch.light() == light
        &&& frame.batch@.on is None
        &&& frame.batch@.ct is None
        &&& frame.batch@.transitiontime == Some(frame.transition)
        &&& frame.batch@.hue matches Some(hue) && hue % 100 == 0 && if frame.spark {
            0 <= hue / 100 < 80
        } else {
            20 <= hue / 100 < 70
        }
        &&& frame.batch@.sat matches Some(sat) && if frame.spark {
            self.saturation_spark.contains(sat as int)
        } else {
            self.saturation.contains(sat as int)
        }
        &&& frame.batch@.bri matches Some(bri) && if frame.spark {
            self.brightness_spark.contains(bri as int)
        } else {
            self.brightness.contains(bri as int)
        }
        &&& if frame.spark {
            frame.transition == 0
        } else {
            self.transition.contains(frame.transition as int)
        }
        &&& self.spark_per_million == 0 ==> !frame.spark
        &&& self.spark_per_million == SPARK_SCALE ==> frame.spark
    }
}

impl FireplaceFrame {
    /// Puts a frame together from what was drawn for it. A spark is
    /// instant, whatever transition time is given.
    pub fn compose(light: usize, spark: bool, hue: u16, sat: u8, bri: u8, tt: u16) -> (f: Self)
        ensures
            f.batch.light() == light,
            f.batch@ == frame_fields(spark, hue, sat, bri, tt),
            f.spark == spark,
            f.transition == frame_transition(spark, tt),
    {
        let transition: u16 = if spark {
            0
        } else {
            tt
        };
        let mut batch = HueLightBatch::new(light);
        batch.hue(hue);
        batch.saturation(sat);
        batch.brightness(bri);
        batch.transition_time(transition);
        FireplaceFrame { batch, spark, transition }
    }

    /// How long to wait before the next frame of the same light, in
    /// milliseconds.
    pub fn pause_millis(&self) -> (r: u64)
        ensures
            r == self.transition * 100,
    {
        (self.transition as u64) * 100
    }
}

impl FireplaceBounds {
    /// The range of the brightness of a normal frame.
    pub fn brightness(&self) -> (r: Band)
        ensures
            r@ == self@.brightness,
    {
        self.brightness
    }

    /// The range of the brightness of a spark.
    pub fn brightness_spark(&self) -> (r: Band)
        ensures
            r@ == self@.brightness_spark,
    {
        self.brightness_spark
    }

    /// The range of the saturation of a normal frame.
    pub fn saturation(&self) -> (r: Band)
        ensures
            r@ == self@.saturation,
    {
        self.saturation
    }

    /// The range of the saturation of a spark.
    pub fn saturation_spark(&self) -> (r: Band)
        ensures
            r@ == self@.saturation_spark,
    {
        self.saturation_spark
    }

    /// The range of the transition time of a normal frame, in
    /// deciseconds.
    pub fn transition(&self) -> (r: Band)
        ensures
            r@ == self@.transition,
    {
        self.transition
    }

    /// The chance of a spark, in parts of a million: at most one.
    pub fn spark_per_million(&self) -> (r: u32)
        ensures
            r == self@.spark_per_million,
            r <= SPARK_SCALE,
    {
        proof {
            use_type_invariant(self);
        }
        self.spark_per_million
    }

    /// Draws the next frame for `light`: first whether a spark flies, then
    /// the transition time, hue, saturation and brightness of that state.
    pub fn next_frame(&self, dice: &mut Dice, light: usize) -> (frame: FireplaceFrame)
        ensures
            self@.allows(light, frame),
    {
        proof {
            use_type_invariant(self);
        }
        let spark: bool = dice.chance(self.spark_per_million, SPARK_SCALE);
        let tt: u16 = if spark {
            0
        } else {
            self.transition.draw(dice) as u16
        };
        if spark {
            let step: u16 = dice.word(0, 80);
            let sat: u8 = self.saturation_spark.draw(dice);
            let bri: u8 = self.brightness_spark.draw(dice);
            FireplaceFrame::compose(light, spark, step * 100, sat, bri, tt)
        } else {
            let step: u16 = dice.word(20, 70);
            let sat: u8 = self.saturation.draw(dice);
            let bri: u8 = self.brightness.draw(dice);
            FireplaceFrame::compose(light, spark, step * 100, sat, bri, tt)
        }
    }
}

/// The updates that switch on every light that is off, one for each, in
/// the order of the listing.
pub fn wake_commands(lights: &Vec<HueLight>) -> (r: Vec<HueLightBatch>)
    ensures
        r@.len() == dark_lights(lights@).len(),
        forall|k: int|
            0 <= k < r@.len() ==> #[trigger] r@[k].light() == dark_lights(lights@)[k] && r@[k]@
                == (LightFields { on: Some(true), ..LightFields::none() }),
{
    let mut out: Vec<HueLightBatch> = Vec::new();
    let mut i: usize = 0;
    while i < lights.len()
        invariant
            i <= lights@.len(),
            out@.len() == dark_lights(lights@.take(i as int)).len(),
            forall|k: int|
                0 <= k < out@.len() ==> #[trigger] out@[k].light() == dark_lights(
                    lights@.take(i as int),
                )[k] && out@[k]@ == (LightFields { on: Some(true), ..LightFields::none() }),
        decreases lights@.len() - i,
    {
        assert(lights@.take(i + 1).drop_last() == lights@.take(i as int));
        if !lights[i].is_on() {
            let mut batch = HueLightBatch::new(lights[i].index());
            batch.on(true);
            out.push(batch);
        }
        i = i + 1;
    }
    assert(lights@.take(i as int) == lights@);
    out
}

/// Whether `v` differs from `base` by no more than `variance`, and lies
/// between 1 and 255.
pub open spec fn within_variance(v: int, base: u8, variance: u8) -> bool {
    &&& v >= (if base - variance < 1 {
        1
    } else {
        base - variance
    })
    &&& v <= (if base + variance > 255 {
        255
    } else {
        base + variance
    })
}

/// The law of the bands: in every frame that the parameters allow,
/// brightness and saturation differ from the base of the frame's state,
/// normal or spark, by no more than its variance, and lie between 1 and
/// 255.
pub proof fn frames_within_variance(sim: FireplaceSimulation, light: usize, frame: FireplaceFrame)
    requires
        sim.spans().allows(light, frame),
    ensures
        frame.batch@.bri matches Some(bri) && if frame.spark {
            within_variance(bri as int, sim.brightness_spark_base, sim.brightness_spark_variance)
        } else {
            within_variance(bri as int, sim.brightness_base, sim.brightness_variance)
        },
        frame.batch@.sat matches Some(sat) && if frame.spark {
            within_variance(sat as int, sim.saturation_spark_base, sim.saturation_spark_variance)
        } else {
            within_variance(sat as int, sim.saturation_base, sim.saturation_variance)
        },
{
}

} // verus!
