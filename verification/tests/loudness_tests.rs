use camilladsp::loudness::{
    ChunkDecision, GainPlan, Loudness, LoudnessParameters, REL_BOOST_RANGE_MDB,
};

/// Rounded division as the library defines it: floor((2 num + den) / (2 den)).
fn rdiv(num: i64, den: i64) -> i64 {
    ((2 * num as i128 + den as i128).div_euclid(2 * den as i128)) as i64
}

fn params(ramp_time_ms: u64) -> LoudnessParameters {
    LoudnessParameters {
        ramp_time_ms,
        reference_level: 0,
        high_boost: 10_000,
        low_boost: 10_000,
    }
}

#[test]
fn shelf_configuration_is_fixed() {
    // The loudness shelves sit at 3500 Hz (high) and 70 Hz (low), both with
    // a 12 dB/oct slope; only their gains vary with the volume.
    assert_eq!(camilladsp::loudness::HIGH_SHELF_FREQ_HZ, 3_500);
    assert_eq!(camilladsp::loudness::LOW_SHELF_FREQ_HZ, 70);
    assert_eq!(camilladsp::loudness::SHELF_SLOPE_DB_PER_OCT, 12);
}

#[test]
fn rel_boost_is_clamped() {
    // 20 dB or more below reference: full boost.
    assert_eq!(camilladsp::loudness::get_rel_boost(-20_000, 0), REL_BOOST_RANGE_MDB);
    assert_eq!(camilladsp::loudness::get_rel_boost(-50_000, 0), REL_BOOST_RANGE_MDB);
    // At or above reference: no boost.
    assert_eq!(camilladsp::loudness::get_rel_boost(0, 0), 0);
    assert_eq!(camilladsp::loudness::get_rel_boost(5_000, 0), 0);
    // Half way.
    assert_eq!(camilladsp::loudness::get_rel_boost(-10_000, 0), 10_000);
}

#[test]
fn rel_boost_is_monotone_nonincreasing() {
    let mut prev = i64::MAX;
    let mut v: i64 = -40_000;
    while v <= 20_000 {
        let b = camilladsp::loudness::get_rel_boost(v, -5_000);
        assert!(b <= prev);
        assert!((0..=REL_BOOST_RANGE_MDB).contains(&b));
        prev = b;
        v += 500;
    }
}

#[test]
fn ramp_chunk_count_matches_rounded_ramp_time() {
    // 500 ms at 48 kHz with 1024-frame chunks: 500 / 21.33 ms rounds to 23.
    let l = Loudness::from_config("loud".to_string(), params(500), 1024, 48_000, -20_000);
    assert_eq!(l.ramptime_in_chunks, 23);
    // 8 ms of 4-frame chunks at 1 kHz: exactly 2 chunks.
    let l2 = Loudness::from_config("loud".to_string(), params(8), 4, 1_000, 0);
    assert_eq!(l2.ramptime_in_chunks, 2);
    // Zero ramp time: no ramping.
    let l3 = Loudness::from_config("loud".to_string(), params(0), 1024, 48_000, 0);
    assert_eq!(l3.ramptime_in_chunks, 0);
}

#[test]
fn from_config_reads_shared_volume() {
    let l = Loudness::from_config("myloud".to_string(), params(500), 1024, 48_000, -12_345);
    assert_eq!(l.current_volume, -12_345);
    assert_eq!(l.target_volume, -12_345);
    assert_eq!(l.ramp_start, -12_345);
    assert_eq!(l.ramp_step, 0);
    assert_eq!(l.name(), "myloud");
}

#[test]
fn constant_gain_outside_ramp() {
    let mut l = Loudness::from_config("loud".to_string(), params(500), 1024, 48_000, -6_000);
    // Shared volume unchanged: constant gain at the current volume.
    let d = l.process_chunk(-6_000);
    match d.plan {
        GainPlan::Constant { gain_mdb } => assert_eq!(gain_mdb, -6_000),
        GainPlan::Ramp { .. } => panic!("no ramp was requested"),
    }
    assert!(d.new_shelf_gains.is_none());
    assert!(d.apply_shelves); // 6 dB below reference: boost is active
}

#[test]
fn volume_within_epsilon_does_not_start_a_ramp() {
    let mut l = Loudness::from_config("loud".to_string(), params(500), 1024, 48_000, -6_000);
    // 0.001 dB away: treated as unchanged.
    let d = l.process_chunk(-6_001);
    assert!(matches!(d.plan, GainPlan::Constant { gain_mdb: -6_000 }));
    assert_eq!(l.ramp_step, 0);
    // 0.002 dB away: a ramp starts.
    let d2 = l.process_chunk(-6_002);
    assert!(matches!(d2.plan, GainPlan::Ramp { .. }));
}

#[test]
fn zero_ramp_time_adopts_volume_at_once() {
    let mut l = Loudness::from_config("loud".to_string(), params(0), 1024, 48_000, -20_000);
    let d = l.process_chunk(0);
    match d.plan {
        GainPlan::Constant { gain_mdb } => assert_eq!(gain_mdb, 0),
        GainPlan::Ramp { .. } => panic!("ramp time is zero"),
    }
    assert_eq!(l.current_volume, 0);
    assert_eq!(l.target_volume, 0);
    assert_eq!(l.ramp_step, 0);
}

/// The gain trajectory is linear in dB and lands exactly on the target:
/// sample k (1-based) of ramp chunk j carries
/// v0 + (v1 - v0) * ((j-1)*M + k) / (N*M) dB.
#[test]
fn ramp_trajectory_is_linear_in_db_and_exact() {
    let chunksize = 4usize;
    let mut l = Loudness::from_config("loud".to_string(), params(8), chunksize, 1_000, 0);
    assert_eq!(l.ramptime_in_chunks, 2);
    let (v0, v1) = (0i64, 2_300i64);
    let (n, m) = (2i64, chunksize as i64);
    for j in 1..=2i64 {
        let d = l.process_chunk(v1);
        match d.plan {
            GainPlan::Ramp { gains, denom } => {
                assert_eq!(denom, n * m);
                assert_eq!(gains.len(), chunksize);
                for (k0, g) in gains.iter().enumerate() {
                    let t = (j - 1) * m + k0 as i64 + 1;
                    assert_eq!(*g, v0 * (n * m) + (v1 - v0) * t);
                }
            }
            GainPlan::Constant { .. } => panic!("chunk {j} should ramp"),
        }
        assert!(d.new_shelf_gains.is_some());
    }
    // The ramp ends exactly on the target, with no rounding residue.
    assert_eq!(l.current_volume, v1);
    assert_eq!(l.ramp_step, 0);
    // The next chunk is constant at the target.
    let d = l.process_chunk(v1);
    assert!(matches!(d.plan, GainPlan::Constant { gain_mdb } if gain_mdb == v1));
}

/// A 500 ms ramp from -20 dB to 0 dB at 48 kHz and chunksize 1024 takes
/// exactly 23 chunks; afterwards the gain is constant at 0 dB.
#[test]
fn volume_ramp_takes_23_chunks() {
    let (chunksize, rate) = (1024usize, 48_000usize);
    let mut l = Loudness::from_config("loud".to_string(), params(500), chunksize, rate, -20_000);
    let (v0, v1) = (-20_000i64, 0i64);
    let (n, m) = (23i64, chunksize as i64);
    let mut ramp_chunks = 0;
    for _ in 0..40 {
        let d = l.process_chunk(v1);
        match d.plan {
            GainPlan::Ramp { gains, denom } => {
                ramp_chunks += 1;
                assert_eq!(denom, n * m);
                let j = ramp_chunks as i64;
                for (k0, g) in gains.iter().enumerate() {
                    let t = (j - 1) * m + k0 as i64 + 1;
                    assert_eq!(*g, v0 * (n * m) + (v1 - v0) * t);
                }
                // The volume after the chunk is the last sample's gain,
                // rounded to the nearest mdB.
                let last = v0 * (n * m) + (v1 - v0) * (j * m);
                assert_eq!(l.current_volume, rdiv(last, n * m));
            }
            GainPlan::Constant { gain_mdb } => {
                // From chunk 24 on: constant at the target.
                assert_eq!(gain_mdb, 0);
            }
        }
    }
    assert_eq!(ramp_chunks, 23);
    assert_eq!(l.current_volume, 0);
}

/// With the volume at the reference level the shelving filters are bypassed:
/// the decision asks for a plain constant gain and nothing else.
#[test]
fn loudness_bypass_at_reference_level() {
    let mut l = Loudness::from_config("loud".to_string(), params(0), 1024, 48_000, 0);
    // reference_level of `params` is 0 and the volume is 0.
    let d: ChunkDecision = l.process_chunk(0);
    assert!(!d.apply_shelves);
    assert!(d.new_shelf_gains.is_none());
    assert!(matches!(d.plan, GainPlan::Constant { gain_mdb: 0 }));
    // Below the reference the shelves come back.
    let d2 = l.process_chunk(-3_000);
    assert!(d2.apply_shelves);
}

#[test]
fn shelf_gains_scale_with_relative_boost() {
    let l = Loudness::from_config("loud".to_string(), params(0), 1024, 48_000, -10_000);
    // 10 dB below a 0 dB reference: half the boost. Gains are scaled by
    // 20000: high gain is 10000/20000 * 10 dB = 5 dB.
    let sg = l.shelf_gains_at(-10_000);
    assert_eq!(sg.high_num, 10_000 * 10_000);
    assert_eq!(sg.low_num, 10_000 * 10_000);
    assert_eq!(sg.high_num as f64 / 20_000.0, 5_000.0); // 5 dB in mdB
    // At reference: zero.
    let sg0 = l.shelf_gains_at(0);
    assert_eq!(sg0.high_num, 0);
    assert_eq!(sg0.low_num, 0);
}

#[test]
fn update_parameters_replaces_boosts_and_ramp_time() {
    let mut l = Loudness::from_config("loud".to_string(), params(500), 1024, 48_000, -6_000);
    let newp = LoudnessParameters {
        ramp_time_ms: 200,
        reference_level: -10_000,
        high_boost: 5_000,
        low_boost: 7_000,
    };
    let sg = l.update_parameters(newp, -6_000);
    // round(200 * 48000 / (1000 * 1024)) = round(9.375) = 9
    assert_eq!(l.ramptime_in_chunks, 9);
    assert_eq!(l.reference_level, -10_000);
    assert_eq!(l.high_boost, 5_000);
    assert_eq!(l.low_boost, 7_000);
    // Volume state is untouched.
    assert_eq!(l.current_volume, -6_000);
    assert_eq!(l.target_volume, -6_000);
    // -6 dB is above the new -10 dB reference: no boost at all.
    assert_eq!(sg.high_num, 0);
    assert_eq!(sg.low_num, 0);
    // 14 dB below the new reference: 14/20 of each boost.
    let sg2 = l.shelf_gains_at(-24_000);
    assert_eq!(sg2.high_num, 14_000 * 5_000);
    assert_eq!(sg2.low_num, 14_000 * 7_000);
}

#[test]
fn retarget_during_ramp_restarts_from_current_volume() {
    let mut l = Loudness::from_config("loud".to_string(), params(8), 4, 1_000, 0);
    // Start ramping towards -10 dB.
    let _ = l.process_chunk(-10_000);
    assert_eq!(l.ramp_step, 2);
    let mid_volume = l.current_volume;
    // New target mid-ramp: the ramp restarts from the volume reached so far.
    let _ = l.process_chunk(5_000);
    assert_eq!(l.ramp_start, mid_volume);
    assert_eq!(l.target_volume, 5_000);
}
