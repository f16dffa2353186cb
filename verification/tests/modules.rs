use noise::NoiseModule;
use noise::ScaleBias;
use noise::Seedable;

struct Constant {
    value: i64,
}

impl<T> NoiseModule<T, i64> for Constant {
    fn spec_get(&self, _point: T) -> i64 {
        self.value
    }

    fn get(&self, _point: T) -> i64 {
        self.value
    }
}

struct PatternUnit {
    seed: u32,
    gain: i64,
}

impl Seedable for PatternUnit {
    fn spec_seed(&self) -> u32 {
        self.seed
    }

    fn set_seed(self, seed: u32) -> PatternUnit {
        PatternUnit { seed, ..self }
    }

    fn seed(&self) -> u32 {
        self.seed
    }
}

#[test]
fn reference_evaluates_like_module() {
    let unit = Constant { value: 7 };
    let direct = unit.get((1i64, 2i64));
    let via_ref = <&Constant as NoiseModule<(i64, i64), i64>>::get(&&unit, (1i64, 2i64));
    assert_eq!(direct, 7);
    assert_eq!(via_ref, direct);
}

#[test]
fn composed_through_reference_matches_direct() {
    let unit = Constant { value: 5 };
    let borrowed = &unit;
    let direct = ScaleBias::new(&unit).set_scale(2i64).get((0i64, 0i64, 0i64));
    let through_ref = ScaleBias::new(&borrowed).set_scale(2i64).get((0i64, 0i64, 0i64));
    assert_eq!(direct, 10);
    assert_eq!(through_ref, direct);
}

#[test]
fn seed_round_trip_holds() {
    let unit = PatternUnit { seed: 9, gain: 3 };
    assert_eq!(unit.set_seed(0).seed(), 0);
    let unit = PatternUnit { seed: 9, gain: 3 };
    assert_eq!(unit.set_seed(42).seed(), 42);
    let unit = PatternUnit { seed: 9, gain: 3 };
    assert_eq!(unit.set_seed(u32::MAX).seed(), u32::MAX);
}

#[test]
fn reseeding_keeps_the_last_seed() {
    let unit = PatternUnit { seed: 0, gain: 11 };
    let unit = unit.set_seed(1).set_seed(9);
    assert_eq!(unit.seed(), 9);
    assert_eq!(unit.gain, 11);
}
