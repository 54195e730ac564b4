//! A colour sweep: all lights follow one cursor round the hue wheel, each
//! a little to one side of it, no two of them on the same hue.

use crate::dice::Dice;
use crate::hue_light::{dark_lights, HueLight, HueLightBatch, LightFields};
use vstd::prelude::*;

verus! {

/// The length of the hue wheel in cursor units; a hue is a hundred times
/// its position on the wheel.
pub const HUE_WHEEL: u16 = 655;

/// By how much a light may stand off the cursor: from this on,
pub const OFFSET_LOW: u16 = 20;

/// and below this.
pub const OFFSET_HIGH: u16 = 32;

/// By how much the cursor moves after a frame: from this on,
pub const STEP_LOW: u16 = 81;

/// and below this.
pub const STEP_HIGH: u16 = 163;

/// The transition time of every frame of the sweep, in deciseconds.
pub const SWEEP_TRANSITION: u16 = 50;

/// The position beside the cursor at `offset`, above or below it, as
/// 16-bit arithmetic gives it.
pub open spec fn candidate(cursor: u16, offset: u16, upward: bool) -> u16 {
    if upward {
        vstd::wrapping::u16_specs::wrapping_add(cursor, offset)
    } else {
        vstd::wrapping::u16_specs::wrapping_sub(cursor, offset)
    }
}

/// The hue that stands for a position on the wheel.
pub open spec fn scaled(position: u16) -> u16 {
    vstd::wrapping::u16_specs::wrapping_mul(position, 100)
}

/// The position that a light takes: the side drawn first where no light
/// of the frame stands there yet, else the other side, and none where both
/// are taken.
pub open spec fn settled(cursor: u16, offset: u16, upward_first: bool, taken: Seq<u16>) -> Option<
    u16,
> {
    if !taken.contains(candidate(cursor, offset, upward_first)) {
        Some(candidate(cursor, offset, upward_first))
    } else if !taken.contains(candidate(cursor, offset, !upward_first)) {
        Some(candidate(cursor, offset, !upward_first))
    } else {
        None
    }
}

/// The cursor after a move by `step`: round the wheel.
pub open spec fn advanced(cursor: u16, step: u16) -> u16 {
    ((cursor + step) % (HUE_WHEEL as int)) as u16
}

/// Whether `v` occurs in `taken`.
fn occurs(taken: &Vec<u16>, v: u16) -> (r: bool)
    ensures
        r == taken@.contains(v),
{
    let mut i: usize = 0;
    while i < taken.len()
        invariant
            i <= taken@.len(),
            forall|k: int| 0 <= k < i ==> taken@[k] != v,
        decreases taken@.len() - i,
    {
        if taken[i] == v {
            return true;
        }
        i = i + 1;
    }
    false
}

/// Settles the position of one light beside the cursor, given the draws
/// made for it and the positions that the frame has given out.
pub fn settle_hue(cursor: u16, offset: u16, upward_first: bool, taken: &Vec<u16>) -> (r: Option<
    u16,
>)
    ensures
        r == settled(cursor, offset, upward_first, taken@),
{
    let above: u16 = cursor.wrapping_add(offset);
    let below: u16 = cursor.wrapping_sub(offset);
    let first: u16 = if upward_first {
        above
    } else {
        below
    };
    let other: u16 = if upward_first {
        below
    } else {
        above
    };
    if !occurs(taken, first) {
        Some(first)
    } else if !occurs(taken, other) {
        Some(other)
    } else {
        None
    }
}

/// The fields of a sweep update: the hue of the position, saturation,
/// brightness and the fixed transition time.
pub open spec fn sweep_fields(position: u16, sat: u8, bri: u8) -> LightFields {
    LightFields {
        on: None,
        ct: None,
        bri: Some(crate::hue_light::clamped_brightness(bri)),
        sat: Some(crate::hue_light::clamped_saturation(sat)),
        hue: Some(scaled(position)),
        transitiontime: Some(SWEEP_TRANSITION),
    }
}

/// The update that puts `light` at `position` on the wheel.
pub fn sweep_batch(light: usize, position: u16, sat: u8, bri: u8) -> (batch: HueLightBatch)
    ensures
        batch.light() == light,
        batch@ == sweep_fields(position, sat, bri),
{
    let mut batch = HueLightBatch::new(light);
    batch.hue(position.wrapping_mul(100));
    batch.saturation(sat);
    batch.brightness(bri);
    batch.transition_time(SWEEP_TRANSITION);
    batch
}

/// Whether a position lies beside some cursor on the wheel: a little above
/// zero, or a little below it.
pub open spec fn near_wheel(position: u16) -> bool {
    position <= 685 || position >= 65505
}

/// The two sides of a cursor on the wheel are two positions near it.
pub proof fn lemma_sides_differ(cursor: u16, offset: u16)
    requires
        cursor < HUE_WHEEL,
        OFFSET_LOW <= offset < OFFSET_HIGH,
    ensures
        near_wheel(candidate(cursor, offset, true)),
        near_wheel(candidate(cursor, offset, false)),
        candidate(cursor, offset, true) != candidate(cursor, offset, false),
{
}

/// Two positions near the wheel have two hues: the scaling to a hue loses
/// nothing there.
pub proof fn lemma_scaled_apart(a: u16, b: u16)
    requires
        near_wheel(a),
        near_wheel(b),
        a != b,
    ensures
        scaled(a) != scaled(b),
{
    lemma_scaled_value(a);
    lemma_scaled_value(b);
}

/// What the hue of a position near the wheel is, in plain arithmetic.
proof fn lemma_scaled_value(a: u16)
    requires
        near_wheel(a),
    ensures
        a <= 655 ==> scaled(a) == 100 * a,
        655 < a <= 685 ==> scaled(a) == 100 * a - 65536,
        a >= 65505 ==> scaled(a) == 100 * a - 99 * 65536,
{
    let product: nat = a as nat * 100nat;
    assert(product == 100 * a);
    if a <= 655 {
        assert(product % 65536 == product);
    } else if a <= 685 {
        assert(product % 65536 == product - 65536);
    } else {
        assert(product % 65536 == product - 99 * 65536);
    }
}

/// One frame of the sweep: an update for each light in the order of the
/// listing, and the time to wait after it, in deciseconds. Where a light
/// finds both sides of the cursor taken at its offset, the frame ends
/// before that light and is not complete.
#[derive(Debug)]
pub struct SweepFrame {
    pub batches: Vec<HueLightBatch>,
    pub pause: u16,
    pub complete: bool,
}

/// Whether one of `batches` sets `hue`.
pub open spec fn carries(batches: Seq<HueLightBatch>, hue: u16) -> bool {
    exists|k: int| 0 <= k < batches.len() && (#[trigger] batches[k])@.hue == Some(hue)
}

/// Whether `batch` is a sweep update for `light` under `cursor`: a hue at
/// an allowed offset to one side, saturation and brightness in their
/// bands, the fixed transition time and nothing else.
pub open spec fn light_swept(cursor: u16, light: usize, batch: HueLightBatch) -> bool {
    &&& batch.light() == light
    &&& batch@.on is None
    &&& batch@.ct is None
    &&& batch@.transitiontime == Some(SWEEP_TRANSITION)
    &&& batch@.sat matches Some(sat) && 175 <= sat < 255
    &&& batch@.bri matches Some(bri) && 150 <= bri < 255
    &&& exists|offset: u16, upward: bool|
        OFFSET_LOW <= offset < OFFSET_HIGH && batch@.hue == Some(
            scaled(#[trigger] candidate(cursor, offset, upward)),
        )
}

impl SweepFrame {
    /// Whether this is a frame of the sweep under `cursor` for `lights`.
    pub open spec fn sweeps(self, cursor: u16, lights: Seq<HueLight>) -> bool {
        &&& self.batches@.len() <= lights.len()
        &&& self.complete <==> self.batches@.len() == lights.len()
        &&& 75 <= self.pause < 101
        &&& forall|k: int|
            0 <= k < self.batches@.len() ==> light_swept(
                cursor,
                lights[k]@.index,
                #[trigger] self.batches@[k],
            )
        &&& forall|j: int, k: int|
            0 <= j < k < self.batches@.len() ==> (#[trigger] self.batches@[j])@.hue != (
            #[trigger] self.batches@[k])@.hue
        &&& !self.complete ==> exists|offset: u16|
            OFFSET_LOW <= offset < OFFSET_HIGH && carries(
                self.batches@,
                scaled(#[trigger] candidate(cursor, offset, true)),
            ) && carries(self.batches@, scaled(candidate(cursor, offset, false)))
    }

    /// How long to wait before the next frame, in milliseconds.
    pub fn pause_millis(&self) -> (r: u64)
        ensures
            r == self.pause * 100,
    {
        (self.pause as u64) * 100
    }
}

/// The colour sweep: its state is the cursor on the hue wheel.
#[derive(Debug)]
pub struct ColorsweepEffect {
    cursor: u16,
}

impl View for ColorsweepEffect {
    type V = u16;

    closed spec fn view(&self) -> u16 {
        self.cursor
    }
}

impl ColorsweepEffect {
    #[verifier::type_invariant]
    spec fn on_wheel(self) -> bool {
        self.cursor < HUE_WHEEL
    }

    /// Starts a sweep at a random place on the wheel.
    pub fn start(dice: &mut Dice) -> (r: Self)
        ensures
            r@ < HUE_WHEEL,
    {
        ColorsweepEffect { cursor: dice.word(0, HUE_WHEEL) }
    }

    /// Starts a sweep at `cursor`, taken round the wheel.
    pub fn at(cursor: u16) -> (r: Self)
        ensures
            r@ == advanced(cursor, 0),
            r@ < HUE_WHEEL,
    {
        ColorsweepEffect { cursor: cursor % HUE_WHEEL }
    }

    /// Where the cursor stands: always on the wheel.
    pub fn cursor(&self) -> (r: u16)
        ensures
            r == self@,
            r < HUE_WHEEL,
    {
        proof {
            use_type_invariant(self);
        }
        self.cursor
    }

    /// Moves the cursor on by `step`, round the wheel.
    pub fn advance(&mut self, step: u16)
        ensures
            final(self)@ == advanced(old(self)@, step),
            final(self)@ < HUE_WHEEL,
    {
        proof {
            use_type_invariant(&*self);
        }
        let sum: u32 = self.cursor as u32 + step as u32;
        self.cursor = (sum % (HUE_WHEEL as u32)) as u16;
    }

    /// Draws the next frame for `lights` and, where the frame is complete,
    /// moves the cursor on by a random step.
    pub fn next_frame(&mut self, dice: &mut Dice, lights: &Vec<HueLight>) -> (frame: SweepFrame)
        ensures
            frame.sweeps(old(self)@, lights@),
            lights@.len() <= 2 ==> frame.complete,
            frame.complete ==> exists|step: u16|
                STEP_LOW <= step < STEP_HIGH && final(self)@ == #[trigger] advanced(
                    old(self)@,
                    step,
                ),
            !frame.complete ==> final(self)@ == old(self)@,
            final(self)@ < HUE_WHEEL,
    {
        proof {
            use_type_invariant(&*self);
        }
        let cursor: u16 = self.cursor;
        let pause: u16 = dice.word(75, 101);
        let mut taken: Vec<u16> = Vec::new();
        let mut batches: Vec<HueLightBatch> = Vec::new();
        let mut complete: bool = true;
        let mut i: usize = 0;
        while complete && i < lights.len()
            invariant
                cursor < HUE_WHEEL,
                i <= lights@.len(),
                batches@.len() == i,
                taken@.len() == i,
                forall|k: int| 0 <= k < i ==> near_wheel(#[trigger] taken@[k]),
                forall|j: int, k: int| 0 <= j < k < i ==> #[trigger] taken@[j] != #[trigger] taken@[k],
                forall|k: int|
                    0 <= k < i ==> (#[trigger] batches@[k])@.hue == Some(scaled(taken@[k])),
                forall|k: int|
                    0 <= k < i ==> light_swept(cursor, lights@[k]@.index, #[trigger] batches@[k]),
                !complete ==> i < lights@.len(),
                !complete ==> exists|offset: u16|
                    OFFSET_LOW <= offset < OFFSET_HIGH && taken@.contains(
                        #[trigger] candidate(cursor, offset, true),
                    ) && taken@.contains(candidate(cursor, offset, false)),
            decreases lights@.len() - i + (if complete { 1int } else { 0int }),
        {
            let offset: u16 = dice.word(OFFSET_LOW, OFFSET_HIGH);
            let upward: bool = dice.chance(1, 2);
            proof {
                lemma_sides_differ(cursor, offset);
            }
            match settle_hue(cursor, offset, upward, &taken) {
                None => {
                    complete = false;
                },
                Some(position) => {
                    let sat: u8 = dice.byte(175, 255);
                    let bri: u8 = dice.byte(150, 255);
                    let batch = sweep_batch(lights[i].index(), position, sat, bri);
                    proof {
                        assert(position == candidate(cursor, offset, upward) || position
                            == candidate(cursor, offset, !upward));
                        assert forall|k: int| 0 <= k < i implies taken@[k] != position by {
                            assert(taken@.contains(taken@[k]));
                        }
                    }
                    taken.push(position);
                    batches.push(batch);
                    i = i + 1;
                },
            }
        }
        proof {
            assert forall|j: int, k: int| 0 <= j < k < i implies (#[trigger] batches@[j])@.hue != (
            #[trigger] batches@[k])@.hue by {
                lemma_scaled_apart(taken@[j], taken@[k]);
            }
            if !complete {
                let offset = choose|offset: u16|
                    OFFSET_LOW <= offset < OFFSET_HIGH && taken@.contains(
                        #[trigger] candidate(cursor, offset, true),
                    ) && taken@.contains(candidate(cursor, offset, false));
                lemma_sides_differ(cursor, offset);
                let up = choose|k: int|
                    0 <= k < taken@.len() && taken@[k] == candidate(cursor, offset, true);
                let down = choose|k: int|
                    0 <= k < taken@.len() && taken@[k] == candidate(cursor, offset, false);
                assert(batches@[up]@.hue == Some(scaled(candidate(cursor, offset, true))));
                assert(batches@[down]@.hue == Some(scaled(candidate(cursor, offset, false))));
                assert(up != down);
                assert(lights@.len() > 2);
            }
        }
        if complete {
            let step: u16 = dice.word(STEP_LOW, STEP_HIGH);
            self.advance(step);
        }
        SweepFrame { batches, pause, complete }
    }
}

/// The updates that bring in every light that is off before a sweep:
/// switched on at the lowest brightness and saturation, one update for
/// each such light, in the order of the listing.
pub fn wake_commands(lights: &Vec<HueLight>) -> (r: Vec<HueLightBatch>)
    ensures
        r@.len() == dark_lights(lights@).len(),
        forall|k: int|
            0 <= k < r@.len() ==> (#[trigger] r@[k]).light() == dark_lights(lights@)[k] && r@[k]@
                == (LightFields {
                on: Some(true),
                bri: Some(1u8),
                sat: Some(1u8),
                transitiontime: Some(1u16),
                ..LightFields::none()
            }),
{
    let mut out: Vec<HueLightBatch> = Vec::new();
    let mut i: usize = 0;
    while i < lights.len()
        invariant
            i <= lights@.len(),
            out@.len() == dark_lights(lights@.take(i as int)).len(),
            forall|k: int|
                0 <= k < out@.len() ==> (#[trigger] out@[k]).light() == dark_lights(
                    lights@.take(i as int),
                )[k] && out@[k]@ == (LightFields {
                    on: Some(true),
                    bri: Some(1u8),
                    sat: Some(1u8),
                    transitiontime: Some(1u16),
                    ..LightFields::none()
                }),
        decreases lights@.len() - i,
    {
        assert(lights@.take(i + 1).drop_last() == lights@.take(i as int));
        if !lights[i].is_on() {
            let mut batch = HueLightBatch::new(lights[i].index());
            batch.on(true);
            batch.brightness(1);
            batch.saturation(1);
            batch.transition_time(1);
            out.push(batch);
        }
        i = i + 1;
    }
    assert(lights@.take(i as int) == lights@);
    out
}

} // verus!
