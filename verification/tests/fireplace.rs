use hueston::effects::fireplace::{wake_commands, Band, FireplaceFrame, SPARK_SCALE};
use hueston::{Dice, FireplaceSimulation, HueLight, HueLightState};

fn light(index: usize, on: bool) -> HueLight {
    HueLight::new(
        index,
        HueLightState::new(
            on,
            254,
            14956,
            140,
            "none".to_string(),
            366,
            "none".to_string(),
            Some("ct".to_string()),
            true,
        ),
        "Extended color light".to_string(),
        format!("Lamp {}", index),
        "LCT001".to_string(),
        "Philips".to_string(),
        "Hue color lamp".to_string(),
        "00:17:88".to_string(),
        "5.127".to_string(),
    )
}

fn closed_band(base: u8, variance: u8) -> (u8, u8) {
    let low = (base as i32 - variance as i32).max(1) as u8;
    let high = (base as i32 + variance as i32).min(255) as u8;
    (low, high)
}

#[test]
fn the_standard_fire() {
    let sim = FireplaceSimulation::default();
    assert_eq!(sim.brightness_base, 70);
    assert_eq!(sim.brightness_variance, 10);
    assert_eq!(sim.brightness_spark_base, 110);
    assert_eq!(sim.brightness_spark_variance, 10);
    assert_eq!(sim.saturation_base, 247);
    assert_eq!(sim.saturation_variance, 7);
    assert_eq!(sim.saturation_spark_base, 227);
    assert_eq!(sim.saturation_spark_variance, 27);
    assert_eq!(sim.transition_time_base, 3);
    assert_eq!(sim.transition_time_variance, 2);
    assert_eq!(sim.spark_per_million, 10_000);
    assert_eq!(SPARK_SCALE, 1_000_000);
}

#[test]
fn the_bands_of_the_standard_fire() {
    let bounds = FireplaceSimulation::default().bounds().unwrap();
    assert_eq!((bounds.brightness().low(), bounds.brightness().high()), (60, 81));
    assert_eq!((bounds.brightness_spark().low(), bounds.brightness_spark().high()), (100, 121));
    assert_eq!((bounds.saturation().low(), bounds.saturation().high()), (240, 255));
    assert_eq!((bounds.saturation_spark().low(), bounds.saturation_spark().high()), (200, 255));
    assert_eq!((bounds.transition().low(), bounds.transition().high()), (1, 6));
    assert_eq!(bounds.spark_per_million(), 10_000);
}

#[test]
fn a_band_is_cut_at_its_floor_and_at_255() {
    let band = Band::around(5, 10, 1).unwrap();
    assert_eq!((band.low(), band.high()), (1, 16));
    let band = Band::around(5, 10, 0).unwrap();
    assert_eq!((band.low(), band.high()), (0, 16));
    let band = Band::around(250, 10, 1).unwrap();
    assert_eq!((band.low(), band.high()), (240, 255));
    let band = Band::around(128, 255, 1).unwrap();
    assert_eq!((band.low(), band.high()), (1, 255));
    let band = Band::around(0, 255, 0).unwrap();
    assert_eq!((band.low(), band.high()), (0, 255));
    let band = Band::around(100, 0, 1).unwrap();
    assert_eq!((band.low(), band.high()), (100, 101));
    let band = Band::around(254, 0, 1).unwrap();
    assert_eq!((band.low(), band.high()), (254, 255));
    let band = Band::around(0, 1, 1).unwrap();
    assert_eq!((band.low(), band.high()), (1, 2));
    let band = Band::around(0, 0, 0).unwrap();
    assert_eq!((band.low(), band.high()), (0, 1));
}

#[test]
fn a_band_without_a_value_is_refused() {
    assert!(Band::around(255, 0, 1).is_none());
    assert!(Band::around(255, 0, 0).is_none());
    assert!(Band::around(0, 0, 1).is_none());
    assert!(Band::around(10, 3, 200).is_none());
}

#[test]
fn a_band_is_refused_exactly_where_it_is_empty() {
    for base in 0..=255u8 {
        for variance in [0u8, 1, 2, 100, 254, 255] {
            for floor in [0u8, 1] {
                let low = (base as i32 - variance as i32).max(floor as i32);
                let high = (base as i32 + variance as i32 + 1).min(255);
                match Band::around(base, variance, floor) {
                    Some(band) => {
                        assert!(low < high);
                        assert_eq!((band.low() as i32, band.high() as i32), (low, high));
                    }
                    None => assert!(low >= high),
                }
            }
        }
    }
}

#[test]
fn parameters_with_an_empty_band_are_refused() {
    let standard = FireplaceSimulation::default();
    assert!(FireplaceSimulation { brightness_base: 255, brightness_variance: 0, ..standard }
        .bounds()
        .is_none());
    assert!(FireplaceSimulation { brightness_spark_base: 0, brightness_spark_variance: 0, ..standard }
        .bounds()
        .is_none());
    assert!(FireplaceSimulation { saturation_base: 0, saturation_variance: 0, ..standard }
        .bounds()
        .is_none());
    assert!(FireplaceSimulation { saturation_spark_base: 255, saturation_spark_variance: 0, ..standard }
        .bounds()
        .is_none());
    assert!(FireplaceSimulation { transition_time_base: 255, transition_time_variance: 0, ..standard }
        .bounds()
        .is_none());
    assert!(FireplaceSimulation { transition_time_base: 0, transition_time_variance: 0, ..standard }
        .bounds()
        .is_some());
}

#[test]
fn the_spark_chance_is_cut_at_one() {
    let standard = FireplaceSimulation::default();
    let chance = |spark_per_million: u32| {
        FireplaceSimulation { spark_per_million, ..standard }.bounds().unwrap().spark_per_million()
    };
    assert_eq!(chance(0), 0);
    assert_eq!(chance(1), 1);
    assert_eq!(chance(999_999), 999_999);
    assert_eq!(chance(1_000_000), 1_000_000);
    assert_eq!(chance(1_000_001), 1_000_000);
    assert_eq!(chance(u32::MAX), 1_000_000);
}

#[test]
fn a_band_draws_only_its_own_values() {
    let mut dice = Dice::new();
    let band = Band::around(100, 2, 1).unwrap();
    let mut seen = [false; 256];
    for _ in 0..2000 {
        let v = band.draw(&mut dice);
        assert!((98..=102).contains(&v));
        seen[v as usize] = true;
    }
    assert!(seen.iter().filter(|s| **s).count() > 1);
    let single = Band::around(7, 0, 1).unwrap();
    for _ in 0..100 {
        assert_eq!(single.draw(&mut dice), 7);
    }
}

#[test]
fn compose_sets_the_four_fields_of_a_frame() {
    let frame = FireplaceFrame::compose(6, false, 4500, 250, 66, 4);
    assert!(!frame.spark);
    assert_eq!(frame.transition, 4);
    assert_eq!(frame.pause_millis(), 400);
    let (index, params) = frame.batch.build();
    assert_eq!(index, 6);
    assert_eq!(params.hue(), Some(4500));
    assert_eq!(params.sat(), Some(250));
    assert_eq!(params.bri(), Some(66));
    assert_eq!(params.transitiontime(), Some(4));
    assert_eq!(params.on(), None);
    assert_eq!(params.ct(), None);
    assert_eq!(params.len(), 4);
}

#[test]
fn a_spark_is_instant() {
    let frame = FireplaceFrame::compose(1, true, 7900, 255, 0, 9);
    assert!(frame.spark);
    assert_eq!(frame.transition, 0);
    assert_eq!(frame.pause_millis(), 0);
    let (_, params) = frame.batch.build();
    assert_eq!(params.transitiontime(), Some(0));
    assert_eq!(params.hue(), Some(7900));
    assert_eq!(params.sat(), Some(254));
    assert_eq!(params.bri(), Some(1));
}

#[test]
fn the_pause_is_the_transition_time_in_milliseconds() {
    assert_eq!(FireplaceFrame::compose(1, false, 0, 1, 1, 0).pause_millis(), 0);
    assert_eq!(FireplaceFrame::compose(1, false, 0, 1, 1, 1).pause_millis(), 100);
    assert_eq!(FireplaceFrame::compose(1, false, 0, 1, 1, 254).pause_millis(), 25_400);
    assert_eq!(FireplaceFrame::compose(1, false, 0, 1, 1, 65535).pause_millis(), 6_553_500);
}

fn check_frames(sim: FireplaceSimulation, frames: usize) -> (usize, usize) {
    let bounds = sim.bounds().unwrap();
    let mut dice = Dice::new();
    let mut sparks = 0;
    let mut normal = 0;
    for n in 0..frames {
        let light = n % 5 + 1;
        let frame = bounds.next_frame(&mut dice, light);
        let spark = frame.spark;
        let transition = frame.transition;
        assert_eq!(frame.pause_millis(), transition as u64 * 100);
        let (index, params) = frame.batch.build();
        assert_eq!(index, light);
        assert_eq!(params.len(), 4);
        assert_eq!(params.on(), None);
        assert_eq!(params.ct(), None);
        assert_eq!(params.transitiontime(), Some(transition));
        let hue = params.hue().unwrap();
        let sat = params.sat().unwrap();
        let bri = params.bri().unwrap();
        assert_eq!(hue % 100, 0);
        if spark {
            sparks += 1;
            assert_eq!(transition, 0);
            assert!(hue <= 7900);
            let (low, high) = closed_band(sim.saturation_spark_base, sim.saturation_spark_variance);
            assert!(low <= sat && sat <= high);
            let (low, high) = closed_band(sim.brightness_spark_base, sim.brightness_spark_variance);
            assert!(low <= bri && bri <= high);
        } else {
            normal += 1;
            assert!((2000..=6900).contains(&hue));
            let (low, high) = closed_band(sim.saturation_base, sim.saturation_variance);
            assert!(low <= sat && sat <= high);
            let (low, high) = closed_band(sim.brightness_base, sim.brightness_variance);
            assert!(low <= bri && bri <= high);
            let low = sim.transition_time_base.saturating_sub(sim.transition_time_variance) as u16;
            let high = (sim.transition_time_base as u16 + sim.transition_time_variance as u16).min(254);
            assert!(low <= transition && transition <= high);
        }
        assert!((1..=254).contains(&bri));
        assert!((1..=254).contains(&sat));
    }
    (normal, sparks)
}

#[test]
fn frames_stay_within_the_variance_of_their_base() {
    let (normal, sparks) = check_frames(FireplaceSimulation::default(), 20_000);
    assert_eq!(normal + sparks, 20_000);
    assert!(normal > 0);
}

#[test]
fn frames_stay_within_bands_that_are_cut() {
    let sim = FireplaceSimulation {
        brightness_base: 3,
        brightness_variance: 200,
        brightness_spark_base: 250,
        brightness_spark_variance: 250,
        saturation_base: 255,
        saturation_variance: 1,
        saturation_spark_base: 0,
        saturation_spark_variance: 1,
        transition_time_base: 250,
        transition_time_variance: 100,
        spark_per_million: 500_000,
    };
    let (normal, sparks) = check_frames(sim, 20_000);
    assert!(normal > 0);
    assert!(sparks > 0);
}

#[test]
fn without_spark_chance_no_frame_is_a_spark() {
    let sim = FireplaceSimulation { spark_per_million: 0, ..FireplaceSimulation::default() };
    let bounds = sim.bounds().unwrap();
    let mut dice = Dice::new();
    let mut transitions = [false; 8];
    for _ in 0..20_000 {
        let frame = bounds.next_frame(&mut dice, 1);
        assert!(!frame.spark);
        assert!((1..=5).contains(&frame.transition));
        transitions[frame.transition as usize] = true;
        let (_, params) = frame.batch.build();
        assert_eq!(params.transitiontime(), Some(frame.transition));
        assert!((2000..=6900).contains(&params.hue().unwrap()));
    }
    assert!(transitions.iter().filter(|t| **t).count() > 1);
}

#[test]
fn with_full_spark_chance_every_frame_is_a_spark() {
    for spark_per_million in [1_000_000, 2_000_000, u32::MAX] {
        let sim = FireplaceSimulation { spark_per_million, ..FireplaceSimulation::default() };
        let (normal, sparks) = check_frames(sim, 5_000);
        assert_eq!(normal, 0);
        assert_eq!(sparks, 5_000);
    }
}

#[test]
fn only_lights_that_are_off_are_woken() {
    let lights = vec![light(1, true), light(4, false), light(5, false), light(9, true), light(12, false)];
    let batches = wake_commands(&lights);
    assert_eq!(batches.len(), 3);
    let mut indices = Vec::new();
    for batch in batches {
        let (index, params) = batch.build();
        indices.push(index);
        assert_eq!(params.on(), Some(true));
        assert_eq!(params.len(), 1);
    }
    assert_eq!(indices, vec![4, 5, 12]);
}

#[test]
fn no_light_is_woken_when_all_are_on() {
    assert!(wake_commands(&vec![light(1, true), light(2, true)]).is_empty());
    assert!(wake_commands(&Vec::new()).is_empty());
}
