use stm32g4xx_hal::fmac::config::{fir_lengths_valid, iir_lengths_valid};
use stm32g4xx_hal::fmac::layout::{CAPACITY, MAX_REGION};
use stm32g4xx_hal::fmac::{Gain, IirConfig, MemoryMap, Region, Sample};

fn samples(n: usize) -> Vec<Sample> {
    (0..n).map(|i| Sample::from_bits(i as i16)).collect()
}

#[test]
fn gain_exponents_run_from_zero_to_seven() {
    let gains = [
        Gain::X1,
        Gain::X2,
        Gain::X4,
        Gain::X8,
        Gain::X16,
        Gain::X32,
        Gain::X64,
        Gain::X128,
    ];
    for (r, gain) in gains.iter().enumerate() {
        assert_eq!(gain.exponent() as usize, r);
    }
}

#[test]
fn iir_lengths_accept_every_tap_count_in_range() {
    for b in 2..=64usize {
        for a in 1..b {
            assert!(iir_lengths_valid(b, b, a, a), "b = {b}, a = {a}");
            assert!(b + b + a + a <= CAPACITY);
        }
    }
}

#[test]
fn iir_lengths_reject_each_broken_bound() {
    // too few and too many feed-forward taps
    assert!(!iir_lengths_valid(1, 1, 1, 1));
    assert!(!iir_lengths_valid(0, 0, 0, 0));
    assert!(!iir_lengths_valid(65, 65, 1, 1));
    // no feed-back taps, and as many as feed-forward taps
    assert!(!iir_lengths_valid(2, 2, 0, 0));
    assert!(!iir_lengths_valid(2, 2, 2, 2));
    assert!(!iir_lengths_valid(64, 64, 64, 64));
    // sample buffer not as long as the feed-forward taps
    assert!(!iir_lengths_valid(3, 2, 1, 1));
    assert!(!iir_lengths_valid(1, 2, 1, 1));
    // history not as long as the feed-back taps
    assert!(!iir_lengths_valid(2, 2, 1, 2));
    assert!(!iir_lengths_valid(2, 2, 1, 0));
}

#[test]
fn iir_lengths_accept_the_extremes() {
    assert!(iir_lengths_valid(2, 2, 1, 1));
    assert!(iir_lengths_valid(64, 64, 63, 63));
    assert!(iir_lengths_valid(64, 64, 1, 1));
}

#[test]
fn iir_config_new_keeps_its_buffers() {
    let x1 = samples(3);
    let b = [Sample::from_bits(10), Sample::from_bits(20), Sample::from_bits(30)];
    let a = [Sample::from_bits(-1), Sample::from_bits(-2)];
    let y = samples(2);
    let cfg = IirConfig::new(&x1, &b, &a, &y, Gain::X4);
    assert_eq!(cfg.initial_x1(), &x1[..]);
    assert_eq!(cfg.initial_b(), &b[..]);
    assert_eq!(cfg.initial_a(), &a[..]);
    assert_eq!(cfg.initial_y(), &y[..]);
    assert_eq!(cfg.r(), Gain::X4);
}

#[test]
fn iir_config_try_new_succeeds_exactly_on_valid_lengths() {
    for x1 in 0..6usize {
        for b in 0..6usize {
            for a in 0..6usize {
                for y in 0..6usize {
                    let (vx1, vb, va, vy) = (samples(x1), samples(b), samples(a), samples(y));
                    let cfg = IirConfig::try_new(&vx1, &vb, &va, &vy, Gain::X1);
                    let valid = (2..=64).contains(&b) && (1..b).contains(&a) && x1 == b && y == a;
                    assert_eq!(cfg.is_some(), valid, "x1={x1} b={b} a={a} y={y}");
                    assert_eq!(iir_lengths_valid(x1, b, a, y), valid);
                }
            }
        }
    }
}

#[test]
fn iir_config_try_new_rejects_single_tap() {
    let x1 = samples(2);
    let b = samples(1);
    let a = samples(1);
    let y = samples(2);
    assert!(IirConfig::try_new(&x1, &b, &a, &y, Gain::X1).is_none());
}

#[test]
fn iir_config_try_new_rejects_too_many_taps() {
    let x1 = samples(65);
    let b = samples(65);
    let a = samples(1);
    let y = samples(1);
    assert!(IirConfig::try_new(&x1, &b, &a, &y, Gain::X1).is_none());
}

#[test]
fn fir_lengths_follow_the_rule() {
    assert!(fir_lengths_valid(2, 2, 0));
    assert!(fir_lengths_valid(2, 2, 1));
    assert!(fir_lengths_valid(127, 127, 2));
    assert!(fir_lengths_valid(100, 100, 56));
    // mismatched
    assert!(!fir_lengths_valid(2, 3, 1));
    assert!(!fir_lengths_valid(3, 2, 1));
    // out of range
    assert!(!fir_lengths_valid(1, 1, 1));
    assert!(!fir_lengths_valid(0, 0, 1));
    assert!(!fir_lengths_valid(128, 128, 0));
    // over capacity
    assert!(!fir_lengths_valid(127, 127, 3));
    assert!(!fir_lengths_valid(100, 100, 57));
    assert!(!fir_lengths_valid(2, 2, 256));
}

#[test]
fn partition_assigns_bases_in_sequence() {
    let map = MemoryMap::partition(4, 7, 3);
    assert_eq!(map.x1_region(), Region { base: 0, size: 4 });
    assert_eq!(map.x2_region(), Region { base: 4, size: 7 });
    assert_eq!(map.y_region(), Region { base: 11, size: 3 });
    assert_eq!(map.used(), 14);
}

#[test]
fn partition_is_deterministic() {
    assert_eq!(MemoryMap::partition(64, 127, 63), MemoryMap::partition(64, 127, 63));
}

#[test]
fn try_partition_enforces_capacity() {
    assert!(MemoryMap::try_partition(0, 0, 0).is_some());
    assert!(MemoryMap::try_partition(128, 127, 1).is_some());
    assert!(MemoryMap::try_partition(1, 0, MAX_REGION).is_some());
    assert!(MemoryMap::try_partition(100, 100, 56).is_some());
    // a region too large
    assert!(MemoryMap::try_partition(256, 0, 0).is_none());
    assert!(MemoryMap::try_partition(0, 256, 0).is_none());
    assert!(MemoryMap::try_partition(0, 0, 256).is_none());
    // the base of the last region does not fit its field
    assert!(MemoryMap::try_partition(128, 128, 0).is_none());
    // over capacity
    assert!(MemoryMap::try_partition(100, 100, 57).is_none());
    assert!(MemoryMap::try_partition(2, 0, MAX_REGION).is_none());
}

#[test]
fn try_partition_agrees_with_partition() {
    let map = MemoryMap::try_partition(10, 20, 30).unwrap();
    assert_eq!(map, MemoryMap::partition(10, 20, 30));
    assert_eq!(map.x2_region().base, 10);
    assert_eq!(map.y_region().base, 30);
}
