//! Volume-ramp and loudness-compensation control.
//!
//! The loudness filter applies a bass and treble shelving boost that vanishes
//! at a reference listening level and grows as the user attenuates the
//! volume, together with a smooth (linear-in-dB) volume ramp whenever the
//! shared volume setting changes.  All levels here are integer
//! milli-decibels (mdB, thousandths of a dB); a per-sample ramp gain is kept
//! exact as a scaled numerator over the fixed denominator
//! `ramp chunks * chunk size`.

use vstd::prelude::*;

verus! {

/// Largest supported chunk size, in frames.
pub const MAX_CHUNKSIZE: usize = 1048576;

/// Largest supported ramp length, in chunks.
pub const MAX_RAMP_CHUNKS: usize = 1048576;

/// Largest supported sample rate, in Hz.
pub const MAX_SAMPLERATE: usize = 10000000;

/// Largest supported ramp time, in milliseconds (one hour).
pub const MAX_RAMP_TIME_MS: u64 = 3600000;

/// Volume and boost values are kept within +/- 1000 dB.
pub const VOL_LIMIT_MDB: i64 = 1000000;

/// A shared volume within this distance of the current target is treated as
/// unchanged (0.001 dB).
pub const VOL_EPSILON_MDB: i64 = 1;

/// The relative boost reaches its maximum when the volume sits this far
/// below the reference level (20 dB).
pub const REL_BOOST_RANGE_MDB: i64 = 20000;

/// Corner frequency of the loudness high shelf, in Hz.
pub const HIGH_SHELF_FREQ_HZ: u64 = 3500;

/// Corner frequency of the loudness low shelf, in Hz.
pub const LOW_SHELF_FREQ_HZ: u64 = 70;

/// Slope of both loudness shelves, in dB per octave.
pub const SHELF_SLOPE_DB_PER_OCT: u64 = 12;

/// A level in milli-decibels that the control logic accepts.
pub open spec fn vol_in_range(v: i64) -> bool {
    -VOL_LIMIT_MDB <= v <= VOL_LIMIT_MDB
}

/// Relative loudness boost at `level` mdB against `reference` mdB, scaled by
/// `REL_BOOST_RANGE_MDB`: the fraction `(reference - level) / 20 dB`, clamped
/// to `[0, 1]`, is `rel_boost_num_spec / 20000`.
pub open spec fn rel_boost_num_spec(level: int, reference: int) -> int {
    if reference - level < 0 {
        0
    } else if reference - level > REL_BOOST_RANGE_MDB {
        REL_BOOST_RANGE_MDB as int
    } else {
        reference - level
    }
}

/// Shelf gain in mdB scaled by `REL_BOOST_RANGE_MDB`: the applied shelf gain
/// is `boost` mdB weighted by the relative boost fraction.
pub open spec fn shelf_gain_num_spec(volume: int, reference: int, boost: int) -> int {
    rel_boost_num_spec(volume, reference) * boost
}

/// Division rounded to the nearest integer, halves away from zero upward:
/// `floor((2 num + den) / (2 den))` for a positive `den`.
pub open spec fn round_div_spec(num: int, den: int) -> int {
    (2 * num + den) / (2 * den)
}

/// Relative loudness boost, clamped to `[0, REL_BOOST_RANGE_MDB]`.  The
/// boost is at full strength once the level sits 20 dB or more below the
/// reference, and zero at or above the reference.
pub fn get_rel_boost(level_mdb: i64, reference_mdb: i64) -> (r: i64)
    requires
        vol_in_range(level_mdb),
        vol_in_range(reference_mdb),
    ensures
        r == rel_boost_num_spec(level_mdb as int, reference_mdb as int),
        0 <= r <= REL_BOOST_RANGE_MDB,
{
    let mut rel: i64 = reference_mdb - level_mdb;
    if rel < 0 {
        rel = 0;
    } else if rel > REL_BOOST_RANGE_MDB {
        rel = REL_BOOST_RANGE_MDB;
    }
    rel
}

/// The relative boost never increases when the volume is raised.
///
/// Law: for any reference level, `rel_boost` is monotone nonincreasing in
/// the volume, and always lies in `[0, REL_BOOST_RANGE_MDB]` (the scaled
/// image of `[0, 1]`).
pub proof fn lemma_rel_boost_monotone(lower: int, higher: int, reference: int)
    requires
        lower <= higher,
    ensures
        rel_boost_num_spec(higher, reference) <= rel_boost_num_spec(lower, reference),
        0 <= rel_boost_num_spec(lower, reference) <= REL_BOOST_RANGE_MDB,
        0 <= rel_boost_num_spec(higher, reference) <= REL_BOOST_RANGE_MDB,
{
}

/// At the reference level the loudness compensation collapses to nothing:
/// the relative boost is zero, so the shelving filters are bypassed and the
/// chunk is only scaled by the plain volume gain.
pub proof fn lemma_rel_boost_zero_at_reference(level: int)
    ensures
        rel_boost_num_spec(level, level) == 0,
{
}

proof fn lemma_div_unique(x: int, d: int, q: int, b: int)
    requires
        0 < d,
        x == d * q + b,
        0 <= b < d,
    ensures
        x / d == q,
{
    vstd::arithmetic::div_mod::lemma_div_multiples_vanish_fancy(q, b, d);
}

/// Rounded division for nonnegative operands.
fn round_div_u64(num: u64, den: u64) -> (r: u64)
    requires
        1 <= den <= 0x0fff_ffff_ffff_ffff,
        num <= 0x0fff_ffff_ffff_ffff,
    ensures
        r == round_div_spec(num as int, den as int),
{
    (2 * num + den) / (2 * den)
}

/// Rounded division of a possibly negative numerator by a positive
/// denominator.
fn round_div_i64(num: i64, den: i64) -> (r: i64)
    requires
        1 <= den <= 0x1000_0000_0000_0000,
        -0x3800_0000_0000_0000 <= num <= 0x3800_0000_0000_0000,
    ensures
        r == round_div_spec(num as int, den as int),
{
    let d: u64 = den as u64;
    if num >= 0 {
        let q: u64 = (2 * (num as u64) + d) / (2 * d);
        proof {
            vstd::arithmetic::div_mod::lemma_div_pos_is_pos(2 * num + den, 2 * den);
            vstd::arithmetic::div_mod::lemma_div_is_ordered(
                2 * num + den,
                2 * 0x3800_0000_0000_0000 + den,
                2 * den,
            );
            vstd::arithmetic::div_mod::lemma_div_is_ordered_by_denominator(
                2 * 0x3800_0000_0000_0000 + den,
                2,
                2 * den,
            );
        }
        q as i64
    } else {
        let a: u64 = (-num) as u64;
        if 2 * a <= d {
            proof {
                lemma_div_unique(2 * num + den, 2 * den, 0, 2 * num + den);
            }
            0
        } else {
            let q: u64 = (2 * a + d - 1) / (2 * d);
            proof {
                let x = 2 * a - den;
                let dd = 2 * den;
                vstd::arithmetic::div_mod::lemma_fundamental_div_mod(x, dd);
                vstd::arithmetic::div_mod::lemma_mod_division_less_than_divisor(x, dd);
                let k = x / dd;
                let rem = x % dd;
                vstd::arithmetic::div_mod::lemma_div_pos_is_pos(x, dd);
                assert(dd * (-k) == -(dd * k) && dd * (k + 1) == dd * k + dd && dd * (-k - 1)
                    == -(dd * k) - dd) by (nonlinear_arith);
                if rem == 0 {
                    lemma_div_unique(x + dd - 1, dd, k, dd - 1);
                    lemma_div_unique(2 * num + den, dd, -k, 0);
                } else {
                    lemma_div_unique(x + dd - 1, dd, k + 1, rem - 1);
                    lemma_div_unique(2 * num + den, dd, -k - 1, dd - rem);
                }
                vstd::arithmetic::div_mod::lemma_div_is_ordered_by_denominator(
                    2 * a + den - 1,
                    2,
                    dd,
                );
            }
            -(q as i64)
        }
    }
}

/// The rounded quotient of a value lying between `lo * den` and `hi * den`
/// lies between `lo` and `hi`.
proof fn lemma_round_div_between(num: int, den: int, lo: int, hi: int)
    requires
        1 <= den,
        lo * den <= num,
        num <= hi * den,
    ensures
        lo <= round_div_spec(num, den) <= hi,
{
    let dd = 2 * den;
    assert(dd * lo + den <= 2 * num + den <= dd * hi + den) by (nonlinear_arith)
        requires
            1 <= den,
            lo * den <= num <= hi * den,
            dd == 2 * den,
    ;
    lemma_div_unique(dd * lo + den, dd, lo, den);
    lemma_div_unique(dd * hi + den, dd, hi, den);
    vstd::arithmetic::div_mod::lemma_div_is_ordered(dd * lo + den, 2 * num + den, dd);
    vstd::arithmetic::div_mod::lemma_div_is_ordered(2 * num + den, dd * hi + den, dd);
}

/// Static parameters of the loudness filter: ramp time and the shelving
/// boosts (in mdB) granted 20 dB below the reference level (also in mdB).
pub struct LoudnessParameters {
    pub ramp_time_ms: u64,
    pub reference_level: i64,
    pub high_boost: i64,
    pub low_boost: i64,
}

/// The shelving-filter gains that the device layer must install, scaled by
/// `REL_BOOST_RANGE_MDB`: the high-shelf gain in mdB is
/// `high_num / REL_BOOST_RANGE_MDB`, and likewise for the low shelf.  They
/// configure the two fixed loudness shelves: a high shelf at
/// `HIGH_SHELF_FREQ_HZ` and a low shelf at `LOW_SHELF_FREQ_HZ`, both with
/// slope `SHELF_SLOPE_DB_PER_OCT`.
#[derive(Clone, Copy, Debug, PartialEq, Eq, Structural)]
pub struct ShelfGains {
    pub high_num: i64,
    pub low_num: i64,
}

/// How one chunk must be scaled.
#[derive(Debug)]
pub enum GainPlan {
    /// Every sample is multiplied by the amplitude of `gain_mdb` milli-dB.
    Constant { gain_mdb: i64 },
    /// Sample `k` is multiplied by the amplitude of `gains[k] / denom`
    /// milli-dB, a trajectory that is linear in dB.
    Ramp { gains: Vec<i64>, denom: i64 },
}

/// Everything the device layer needs to process one chunk: the gain
/// trajectory, new shelf gains when the ramp moved the volume, and whether
/// the shelving filters apply at all (they are bypassed at or above the
/// reference level).
#[derive(Debug)]
pub struct ChunkDecision {
    pub plan: GainPlan,
    pub new_shelf_gains: Option<ShelfGains>,
    pub apply_shelves: bool,
}

/// Control state of the loudness filter.  Levels are milli-decibels.
pub struct Loudness {
    pub name: String,
    pub ramptime_in_chunks: usize,
    pub current_volume: i64,
    pub target_volume: i64,
    pub ramp_start: i64,
    pub ramp_step: usize,
    pub samplerate: usize,
    pub chunksize: usize,
    pub reference_level: i64,
    pub high_boost: i64,
    pub low_boost: i64,
}

/// Ramp length in chunks: `ramp_time_ms`, rounded to the nearest whole
/// number of chunks of `chunksize` frames at `samplerate` Hz.
pub open spec fn ramp_chunks_spec(ramp_time_ms: int, samplerate: int, chunksize: int) -> int {
    round_div_spec(ramp_time_ms * samplerate, 1000 * chunksize)
}

/// The per-sample ramp gain in mdB, scaled by `n * m`: at the `t`-th sample
/// (1-based) of a ramp from `v0` to `v1` mdB over `n` chunks of `m` samples,
/// the gain is `v0 + (v1 - v0) * t / (n * m)` mdB.
pub open spec fn ramp_gain_scaled(v0: int, v1: int, n: int, m: int, t: int) -> int {
    v0 * (n * m) + (v1 - v0) * t
}

impl Loudness {
    /// The state is well formed: sizes are within the supported limits and
    /// every level is in range.
    pub open spec fn wf(self) -> bool {
        &&& 1 <= self.chunksize <= MAX_CHUNKSIZE
        &&& 1 <= self.samplerate <= MAX_SAMPLERATE
        &&& self.ramptime_in_chunks <= MAX_RAMP_CHUNKS
        &&& self.ramp_step <= self.ramptime_in_chunks
        &&& vol_in_range(self.current_volume)
        &&& vol_in_range(self.target_volume)
        &&& vol_in_range(self.ramp_start)
        &&& vol_in_range(self.reference_level)
        &&& vol_in_range(self.high_boost)
        &&& vol_in_range(self.low_boost)
    }

    /// The shared volume differs from the current target by more than
    /// `VOL_EPSILON_MDB`, so a new target must be adopted.
    pub open spec fn wants_new_target(self, shared: int) -> bool {
        shared - self.target_volume > VOL_EPSILON_MDB || self.target_volume - shared
            > VOL_EPSILON_MDB
    }

    /// State after examining the shared volume: unchanged if the volume is
    /// still at the target; otherwise either a ramp towards it is started,
    /// or, with no ramp configured, the volume is adopted at once.
    pub open spec fn retarget(self, shared: i64) -> Loudness {
        if !self.wants_new_target(shared as int) {
            self
        } else if self.ramptime_in_chunks > 0 {
            (Loudness {
                ramp_start: self.current_volume,
                target_volume: shared,
                ramp_step: 1,
                ..self
            })
        } else {
            (Loudness { current_volume: shared, target_volume: shared, ramp_step: 0, ..self })
        }
    }

    /// Scaled gain at the last sample of the chunk about to be emitted while
    /// ramping (`ramp_step` >= 1).
    pub open spec fn ramp_last_scaled(self) -> int {
        ramp_gain_scaled(
            self.ramp_start as int,
            self.target_volume as int,
            self.ramptime_in_chunks as int,
            self.chunksize as int,
            self.ramp_step as int * self.chunksize as int,
        )
    }

    /// Volume in mdB after a ramp chunk: the dB gain applied to its last
    /// sample, rounded to the nearest mdB.
    pub open spec fn ramp_chunk_volume_after(self) -> int {
        round_div_spec(
            self.ramp_last_scaled(),
            self.ramptime_in_chunks as int * self.chunksize as int,
        )
    }

    /// Full state transition for one chunk under shared volume `shared`.
    pub open spec fn chunk_next(self, shared: i64) -> Loudness {
        let s = self.retarget(shared);
        if s.ramp_step == 0 {
            s
        } else {
            let step2: usize = if s.ramp_step + 1 > s.ramptime_in_chunks {
                0
            } else {
                (s.ramp_step + 1) as usize
            };
            (Loudness {
                current_volume: s.ramp_chunk_volume_after() as i64,
                ramp_step: step2,
                ..s
            })
        }
    }
}

proof fn lemma_mul_bound(a: int, b: int, am: int, bm: int)
    requires
        0 <= a <= am,
        -bm <= b <= bm,
        0 <= bm,
    ensures
        -(am * bm) <= a * b <= am * bm,
{
    assert(-(am * bm) <= a * b <= am * bm) by (nonlinear_arith)
        requires
            0 <= a <= am,
            -bm <= b <= bm,
            0 <= bm,
    ;
}

/// A scaled ramp gain with a sample index inside the ramp lies between the
/// scaled start and target volumes.
proof fn lemma_ramp_scaled_bounds(v0: int, v1: int, n: int, m: int, t: int)
    requires
        1 <= n,
        1 <= m,
        0 <= t <= n * m,
    ensures
        v0 <= v1 ==> v0 * (n * m) <= ramp_gain_scaled(v0, v1, n, m, t) <= v1 * (n * m),
        v1 <= v0 ==> v1 * (n * m) <= ramp_gain_scaled(v0, v1, n, m, t) <= v0 * (n * m),
{
    assert((v0 <= v1 ==> v0 * (n * m) <= v0 * (n * m) + (v1 - v0) * t <= v1 * (n * m)) && (v1 <= v0
        ==> v1 * (n * m) <= v0 * (n * m) + (v1 - v0) * t <= v0 * (n * m))) by (nonlinear_arith)
        requires
            1 <= n,
            1 <= m,
            0 <= t <= n * m,
    ;
}

/// Law: the ramp trajectory is linear in dB.  Any two consecutive samples of
/// the ramp differ by the same scaled amount `v1 - v0` (so the in-dB gain at
/// the `t`-th of the `n * m` ramp samples is `v0 + (v1 - v0) * t / (n * m)`),
/// the trajectory starts at `v0`, and its last sample reaches `v1` exactly.
pub proof fn lemma_ramp_trajectory(v0: int, v1: int, n: int, m: int, t: int)
    requires
        1 <= n,
        1 <= m,
    ensures
        ramp_gain_scaled(v0, v1, n, m, t + 1) - ramp_gain_scaled(v0, v1, n, m, t) == v1 - v0,
        ramp_gain_scaled(v0, v1, n, m, 0) == v0 * (n * m),
        ramp_gain_scaled(v0, v1, n, m, n * m) == v1 * (n * m),
{
    assert((v0 * (n * m) + (v1 - v0) * (t + 1)) - (v0 * (n * m) + (v1 - v0) * t) == v1 - v0
        && v0 * (n * m) + (v1 - v0) * 0 == v0 * (n * m) && v0 * (n * m) + (v1 - v0) * (n * m) == v1
        * (n * m)) by (nonlinear_arith);
}

/// Law: the gain of each ramp sample.  At the `k`-th sample (1-based) of the
/// `j`-th ramp chunk, the scaled gain is
/// `v0 * (n * m) + (v1 - v0) * ((j - 1) * m + k)`; divided by the fixed
/// denominator `n * m` this is the in-dB gain
/// `v0 + (v1 - v0) * ((j - 1) * m + k) / (n * m)`, and at the very last ramp
/// sample (`j == n`, `k == m`) it equals `v1` exactly.
pub proof fn lemma_ramp_sample_gain(v0: int, v1: int, n: int, m: int, j: int, k: int)
    requires
        1 <= n,
        1 <= m,
        1 <= j <= n,
        1 <= k <= m,
    ensures
        ramp_gain_scaled(v0, v1, n, m, (j - 1) * m + k) == v0 * (n * m) + (v1 - v0) * ((j - 1) * m
            + k),
        j == n && k == m ==> ramp_gain_scaled(v0, v1, n, m, (j - 1) * m + k) == v1 * (n * m),
{
    if j == n && k == m {
        assert((j - 1) * m + k == n * m) by (nonlinear_arith)
            requires
                j == n && k == m,
        ;
        lemma_ramp_trajectory(v0, v1, n, m, 0);
    }
}

/// Law: loudness bypass at the reference level.  A filter sitting at its
/// reference volume, outside a ramp and with the shared volume unchanged,
/// keeps its state over a chunk, asks for nothing but the constant volume
/// gain, and has zero relative boost, so the shelving filters are bypassed
/// and the chunk passes through them untouched.
pub proof fn lemma_bypass_at_reference(s: Loudness, shared: i64)
    requires
        s.wf(),
        s.ramp_step == 0,
        !s.wants_new_target(shared as int),
        s.current_volume == s.reference_level,
    ensures
        s.chunk_next(shared) == s,
        s.chunk_next(shared).ramp_step == 0,
        rel_boost_num_spec(
            s.chunk_next(shared).current_volume as int,
            s.chunk_next(shared).reference_level as int,
        ) == 0,
{
}

/// Law: a ramp ends exactly on its target.  After the last ramp chunk the
/// stored volume equals the target volume, with no rounding residue.
pub proof fn lemma_ramp_completes_at_target(s: Loudness)
    requires
        s.wf(),
        1 <= s.ramp_step,
        s.ramp_step == s.ramptime_in_chunks,
    ensures
        s.ramp_chunk_volume_after() == s.target_volume,
{
    let n = s.ramptime_in_chunks as int;
    let m = s.chunksize as int;
    let nm = n * m;
    assert(nm >= 1) by (nonlinear_arith)
        requires
            1 <= n,
            1 <= m,
            nm == n * m,
    ;
    lemma_ramp_trajectory(s.ramp_start as int, s.target_volume as int, n, m, 0);
    assert(s.ramp_last_scaled() == s.target_volume as int * nm);
    assert(2 * (s.target_volume as int * nm) + nm == (2 * nm) * (s.target_volume as int) + nm)
        by (nonlinear_arith);
    lemma_div_unique(2 * (s.target_volume as int * nm) + nm, 2 * nm, s.target_volume as int, nm);
}

/// The loudness state after `j` further chunks processed under a constant
/// shared volume.
pub open spec fn chunks_after(s: Loudness, shared: i64, j: nat) -> Loudness
    decreases j,
{
    if j == 0 {
        s
    } else {
        chunks_after(s, shared, (j - 1) as nat).chunk_next(shared)
    }
}

/// Law: a ramp takes exactly its configured number of chunks.  From the
/// first ramp chunk, with the shared volume holding at the target, the state
/// before the `j`-th following chunk (0-based) is ramp chunk `j + 1` with
/// the ramp's start, target and sizes unchanged — so by `make_ramp`'s
/// contract that chunk's gains follow the single global linear-in-dB
/// trajectory — and after the last ramp chunk the ramp is over with the
/// volume exactly on the target, where the state is a fixed point: every
/// later chunk applies the constant target gain.
pub proof fn lemma_ramp_runs_to_completion(s: Loudness, shared: i64, j: nat)
    requires
        s.wf(),
        s.ramp_step == 1,
        !s.wants_new_target(shared as int),
        j <= s.ramptime_in_chunks,
    ensures
        chunks_after(s, shared, j).wf(),
        chunks_after(s, shared, j).ramp_start == s.ramp_start,
        chunks_after(s, shared, j).target_volume == s.target_volume,
        chunks_after(s, shared, j).ramptime_in_chunks == s.ramptime_in_chunks,
        chunks_after(s, shared, j).chunksize == s.chunksize,
        chunks_after(s, shared, j).samplerate == s.samplerate,
        chunks_after(s, shared, j).reference_level == s.reference_level,
        chunks_after(s, shared, j).high_boost == s.high_boost,
        chunks_after(s, shared, j).low_boost == s.low_boost,
        j < s.ramptime_in_chunks ==> chunks_after(s, shared, j).ramp_step == j + 1,
        j == s.ramptime_in_chunks ==> ({
            &&& chunks_after(s, shared, j).ramp_step == 0
            &&& chunks_after(s, shared, j).current_volume == s.target_volume
            &&& chunks_after(s, shared, j).chunk_next(shared) == chunks_after(s, shared, j)
        }),
    decreases j,
{
    if j > 0 {
        lemma_ramp_runs_to_completion(s, shared, (j - 1) as nat);
        let p = chunks_after(s, shared, (j - 1) as nat);
        let n = p.ramptime_in_chunks as int;
        let m = p.chunksize as int;
        let nm = n * m;
        assert(1 <= nm <= 1099511627776) by (nonlinear_arith)
            requires
                1 <= n <= 1048576,
                1 <= m <= 1048576,
                nm == n * m,
        ;
        assert(0 <= p.ramp_step as int * m <= nm) by (nonlinear_arith)
            requires
                1 <= p.ramp_step <= n,
                1 <= m,
                nm == n * m,
        ;
        lemma_ramp_scaled_bounds(
            p.ramp_start as int,
            p.target_volume as int,
            n,
            m,
            p.ramp_step as int * m,
        );
        let last = p.ramp_last_scaled();
        assert(-1000000 * nm <= last <= 1000000 * nm) by (nonlinear_arith)
            requires
                1 <= nm,
                -1000000 <= p.ramp_start <= 1000000,
                -1000000 <= p.target_volume <= 1000000,
                (p.ramp_start as int * nm <= last <= p.target_volume as int * nm) || (
                p.target_volume as int * nm <= last <= p.ramp_start as int * nm),
        ;
        lemma_round_div_between(last, nm, -1000000, 1000000);
        if j == s.ramptime_in_chunks {
            lemma_ramp_completes_at_target(p);
        }
    }
}

impl Loudness {
    /// Build the filter's control state.  The caller supplies the shared
    /// volume read at construction time; the ramp length is the ramp time
    /// rounded to whole chunks.
    pub fn from_config(
        name: String,
        conf: LoudnessParameters,
        chunksize: usize,
        samplerate: usize,
        current_volume_mdb: i64,
    ) -> (r: Loudness)
        requires
            1 <= chunksize <= MAX_CHUNKSIZE,
            1 <= samplerate <= MAX_SAMPLERATE,
            conf.ramp_time_ms <= MAX_RAMP_TIME_MS,
            vol_in_range(current_volume_mdb),
            vol_in_range(conf.reference_level),
            vol_in_range(conf.high_boost),
            vol_in_range(conf.low_boost),
            ramp_chunks_spec(conf.ramp_time_ms as int, samplerate as int, chunksize as int)
                <= MAX_RAMP_CHUNKS,
        ensures
            r.name == name,
            r.ramptime_in_chunks == ramp_chunks_spec(
                conf.ramp_time_ms as int,
                samplerate as int,
                chunksize as int,
            ),
            r.current_volume == current_volume_mdb,
            r.target_volume == current_volume_mdb,
            r.ramp_start == current_volume_mdb,
            r.ramp_step == 0,
            r.samplerate == samplerate,
            r.chunksize == chunksize,
            r.reference_level == conf.reference_level,
            r.high_boost == conf.high_boost,
            r.low_boost == conf.low_boost,
            r.wf(),
    {
        proof {
            lemma_mul_bound(conf.ramp_time_ms as int, samplerate as int, 3600000, 10000000);
        }
        let num: u64 = conf.ramp_time_ms * (samplerate as u64);
        let den: u64 = 1000 * (chunksize as u64);
        proof {
            vstd::arithmetic::div_mod::lemma_div_pos_is_pos(
                2 * (num as int) + den as int,
                2 * (den as int),
            );
        }
        let chunks: u64 = round_div_u64(num, den);
        Loudness {
            name,
            ramptime_in_chunks: chunks as usize,
            current_volume: current_volume_mdb,
            target_volume: current_volume_mdb,
            ramp_start: current_volume_mdb,
            ramp_step: 0,
            samplerate,
            chunksize,
            reference_level: conf.reference_level,
            high_boost: conf.high_boost,
            low_boost: conf.low_boost,
        }
    }

    /// The filter's configured name.
    pub fn name(&self) -> (r: String)
        ensures
            r@ == self.name@,
    {
        self.name.clone()
    }

    /// Shelf gains for a given listening level: each boost weighted by the
    /// relative boost fraction at that level.
    pub fn shelf_gains_at(&self, volume_mdb: i64) -> (r: ShelfGains)
        requires
            self.wf(),
            vol_in_range(volume_mdb),
        ensures
            r.high_num == shelf_gain_num_spec(
                volume_mdb as int,
                self.reference_level as int,
                self.high_boost as int,
            ),
            r.low_num == shelf_gain_num_spec(
                volume_mdb as int,
                self.reference_level as int,
                self.low_boost as int,
            ),
    {
        let rel = get_rel_boost(volume_mdb, self.reference_level);
        proof {
            lemma_mul_bound(rel as int, self.high_boost as int, 20000, 1000000);
            lemma_mul_bound(rel as int, self.low_boost as int, 20000, 1000000);
        }
        ShelfGains { high_num: rel * self.high_boost, low_num: rel * self.low_boost }
    }

    /// The scaled per-sample gains for the ramp chunk about to be emitted.
    /// Sample `k` (0-based) of ramp chunk `ramp_step` (1-based) carries the
    /// gain of the global ramp sample `(ramp_step - 1) * chunksize + k + 1`.
    pub fn make_ramp(&self) -> (r: Vec<i64>)
        requires
            self.wf(),
            1 <= self.ramp_step <= self.ramptime_in_chunks,
        ensures
            r@.len() == self.chunksize,
            forall|k: int|
                0 <= k < r@.len() ==> r@[k] == ramp_gain_scaled(
                    self.ramp_start as int,
                    self.target_volume as int,
                    self.ramptime_in_chunks as int,
                    self.chunksize as int,
                    (self.ramp_step - 1) * self.chunksize + k + 1,
                ),
    {
        let n: i64 = self.ramptime_in_chunks as i64;
        let m: i64 = self.chunksize as i64;
        proof {
            assert(0 <= n as int * m as int <= 1099511627776) by (nonlinear_arith)
                requires
                    0 <= n <= 1048576,
                    0 <= m <= 1048576,
            ;
        }
        let nm: i64 = n * m;
        let diff: i64 = self.target_volume - self.ramp_start;
        proof {
            assert(-1099511627776000000 <= self.ramp_start as int * nm <= 1099511627776000000)
                by (nonlinear_arith)
                requires
                    -1000000 <= self.ramp_start <= 1000000,
                    0 <= nm <= 1099511627776,
            ;
            assert(0 <= (self.ramp_step - 1) * (m as int) <= 1099511627776) by (nonlinear_arith)
                requires
                    1 <= self.ramp_step <= 1048577,
                    0 <= m <= 1048576,
            ;
        }
        let base: i64 = self.ramp_start * nm;
        let start_t: i64 = (self.ramp_step as i64 - 1) * m;
        proof {
            assert((self.ramp_step - 1) * (m as int) + m <= n as int * m as int)
                by (nonlinear_arith)
                requires
                    1 <= self.ramp_step <= n,
                    1 <= m,
            ;
        }
        let mut out: Vec<i64> = Vec::new();
        let mut k: usize = 0;
        while k < self.chunksize
            invariant
                self.wf(),
                1 <= self.ramp_step <= self.ramptime_in_chunks,
                0 <= k <= self.chunksize,
                n == self.ramptime_in_chunks,
                m == self.chunksize,
                nm == n as int * m as int,
                0 <= nm <= 1099511627776,
                diff == self.target_volume - self.ramp_start,
                -2000000 <= diff <= 2000000,
                base == self.ramp_start as int * nm,
                -1099511627776000000 <= base <= 1099511627776000000,
                start_t == (self.ramp_step - 1) * m,
                0 <= start_t,
                start_t + m <= nm,
                out@.len() == k,
                forall|i: int|
                    0 <= i < k ==> out@[i] == ramp_gain_scaled(
                        self.ramp_start as int,
                        self.target_volume as int,
                        self.ramptime_in_chunks as int,
                        self.chunksize as int,
                        (self.ramp_step - 1) * self.chunksize + i + 1,
                    ),
            decreases self.chunksize - k,
        {
            proof {
                assert(-2199023255552000000 <= diff as int * (start_t + k + 1)
                    <= 2199023255552000000) by (nonlinear_arith)
                    requires
                        -2000000 <= diff <= 2000000,
                        0 <= start_t + k + 1 <= 1099511627776,
                ;
            }
            let t: i64 = start_t + (k as i64) + 1;
            let g: i64 = base + diff * t;
            out.push(g);
            k += 1;
        }
        out
    }

    /// Decide how the next chunk is processed and advance the control state.
    ///
    /// First the shared volume is examined: a value off the current target by
    /// more than `VOL_EPSILON_MDB` starts a ramp (or is adopted at once when
    /// no ramp is configured).  Outside a ramp every sample gets the constant
    /// current gain; inside a ramp the samples follow the linear-in-dB
    /// trajectory, the stored volume advances to the gain of the chunk's
    /// last sample, and the shelf gains are recomputed for it.  The shelving
    /// filters apply exactly when the relative boost at the new volume is
    /// positive; at or above the reference level they are bypassed.
    pub fn process_chunk(&mut self, shared_volume_mdb: i64) -> (r: ChunkDecision)
        requires
            old(self).wf(),
            vol_in_range(shared_volume_mdb),
        ensures
            *final(self) == old(self).chunk_next(shared_volume_mdb),
            final(self).wf(),
            ({
                let s = old(self).retarget(shared_volume_mdb);
                &&& (s.ramp_step == 0 ==> (r.plan matches GainPlan::Constant { gain_mdb }
                    && gain_mdb == s.current_volume) && r.new_shelf_gains is None)
                &&& (s.ramp_step != 0 ==> (r.plan matches GainPlan::Ramp { gains, denom } && denom
                    == s.ramptime_in_chunks as int * s.chunksize as int && gains@.len()
                    == s.chunksize && (forall|k: int|
                    0 <= k < gains@.len() ==> gains@[k] == ramp_gain_scaled(
                        s.ramp_start as int,
                        s.target_volume as int,
                        s.ramptime_in_chunks as int,
                        s.chunksize as int,
                        (s.ramp_step - 1) * s.chunksize + k + 1,
                    ))) && (r.new_shelf_gains matches Some(sg) && sg.high_num
                    == shelf_gain_num_spec(
                    final(self).current_volume as int,
                    s.reference_level as int,
                    s.high_boost as int,
                ) && sg.low_num == shelf_gain_num_spec(
                    final(self).current_volume as int,
                    s.reference_level as int,
                    s.low_boost as int,
                )))
            }),
            r.apply_shelves == (rel_boost_num_spec(
                final(self).current_volume as int,
                final(self).reference_level as int,
            ) > 0),
    {
        let shared = shared_volume_mdb;
        let away = shared - self.target_volume;
        if away > VOL_EPSILON_MDB || -away > VOL_EPSILON_MDB {
            if self.ramptime_in_chunks > 0 {
                self.ramp_start = self.current_volume;
                self.target_volume = shared;
                self.ramp_step = 1;
            } else {
                self.current_volume = shared;
                self.target_volume = shared;
                self.ramp_step = 0;
            }
        }
        proof {
            assert(*self == old(self).retarget(shared_volume_mdb));
        }
        if self.ramp_step == 0 {
            let apply = get_rel_boost(self.current_volume, self.reference_level) > 0;
            ChunkDecision {
                plan: GainPlan::Constant { gain_mdb: self.current_volume },
                new_shelf_gains: None,
                apply_shelves: apply,
            }
        } else {
            let ghost s = *self;
            let gains = self.make_ramp();
            let step = self.ramp_step;
            let n: i64 = self.ramptime_in_chunks as i64;
            let m: i64 = self.chunksize as i64;
            proof {
                assert(1 <= n as int * m as int <= 1099511627776) by (nonlinear_arith)
                    requires
                        1 <= n <= 1048576,
                        1 <= m <= 1048576,
                ;
            }
            let nm: i64 = n * m;
            proof {
                assert(-1099511627776000000 <= self.ramp_start as int * nm <= 1099511627776000000)
                    by (nonlinear_arith)
                    requires
                        -1000000 <= self.ramp_start <= 1000000,
                        0 <= nm <= 1099511627776,
                ;
                assert(0 <= step as int * (m as int) <= nm) by (nonlinear_arith)
                    requires
                        1 <= step <= n,
                        1 <= m,
                        nm == n as int * m as int,
                ;
                assert(-2199023255552000000 <= (self.target_volume - self.ramp_start) * (step as int
                    * (m as int)) <= 2199023255552000000) by (nonlinear_arith)
                    requires
                        -2000000 <= self.target_volume - self.ramp_start <= 2000000,
                        0 <= step as int * (m as int) <= 1099511627776,
                ;
            }
            let last: i64 = self.ramp_start * nm + (self.target_volume - self.ramp_start) * (
            (step as i64) * m);
            proof {
                assert(last == s.ramp_last_scaled());
                lemma_ramp_scaled_bounds(
                    s.ramp_start as int,
                    s.target_volume as int,
                    n as int,
                    m as int,
                    step as int * (m as int),
                );
                assert(-1000000 * nm <= last <= 1000000 * nm) by (nonlinear_arith)
                    requires
                        1 <= nm,
                        -1000000 <= s.ramp_start <= 1000000,
                        -1000000 <= s.target_volume <= 1000000,
                        (s.ramp_start as int * nm <= last <= s.target_volume as int * nm) || (
                        s.target_volume as int * nm <= last <= s.ramp_start as int * nm),
                ;
                lemma_round_div_between(last as int, nm as int, -1000000, 1000000);
                assert(-1099511627776000000 <= 1000000 * nm <= 1099511627776000000)
                    by (nonlinear_arith)
                    requires
                        1 <= nm <= 1099511627776,
                ;
            }
            let cur = round_div_i64(last, nm);
            self.current_volume = cur;
            self.ramp_step = if step + 1 > self.ramptime_in_chunks {
                0
            } else {
                step + 1
            };
            let sg = self.shelf_gains_at(cur);
            let apply = get_rel_boost(cur, self.reference_level) > 0;
            ChunkDecision {
                plan: GainPlan::Ramp { gains, denom: nm },
                new_shelf_gains: Some(sg),
                apply_shelves: apply,
            }
        }
    }

    /// Adopt new loudness parameters in place.  The ramp length is
    /// recomputed for the new ramp time; a running ramp whose position lies
    /// beyond the new length is ended at the volume reached so far.  The
    /// returned shelf gains are computed against the shared volume, as the
    /// device layer must reinstall its shelving filters at once.
    pub fn update_parameters(&mut self, conf: LoudnessParameters, shared_volume_mdb: i64) -> (r:
        ShelfGains)
        requires
            old(self).wf(),
            vol_in_range(shared_volume_mdb),
            conf.ramp_time_ms <= MAX_RAMP_TIME_MS,
            vol_in_range(conf.reference_level),
            vol_in_range(conf.high_boost),
            vol_in_range(conf.low_boost),
            ramp_chunks_spec(
                conf.ramp_time_ms as int,
                old(self).samplerate as int,
                old(self).chunksize as int,
            ) <= MAX_RAMP_CHUNKS,
        ensures
            final(self).ramptime_in_chunks == ramp_chunks_spec(
                conf.ramp_time_ms as int,
                old(self).samplerate as int,
                old(self).chunksize as int,
            ),
            final(self).reference_level == conf.reference_level,
            final(self).high_boost == conf.high_boost,
            final(self).low_boost == conf.low_boost,
            final(self).ramp_step == if old(self).ramp_step
                <= final(self).ramptime_in_chunks { old(self).ramp_step as int } else { 0 },
            final(self).current_volume == old(self).current_volume,
            final(self).target_volume == old(self).target_volume,
            final(self).ramp_start == old(self).ramp_start,
            final(self).samplerate == old(self).samplerate,
            final(self).chunksize == old(self).chunksize,
            final(self).name == old(self).name,
            final(self).wf(),
            r.high_num == shelf_gain_num_spec(
                shared_volume_mdb as int,
                conf.reference_level as int,
                conf.high_boost as int,
            ),
            r.low_num == shelf_gain_num_spec(
                shared_volume_mdb as int,
                conf.reference_level as int,
                conf.low_boost as int,
            ),
    {
        proof {
            lemma_mul_bound(conf.ramp_time_ms as int, self.samplerate as int, 3600000, 10000000);
        }
        let num: u64 = conf.ramp_time_ms * (self.samplerate as u64);
        let den: u64 = 1000 * (self.chunksize as u64);
        proof {
            vstd::arithmetic::div_mod::lemma_div_pos_is_pos(
                2 * (num as int) + den as int,
                2 * (den as int),
            );
        }
        let chunks: u64 = round_div_u64(num, den);
        self.ramptime_in_chunks = chunks as usize;
        if self.ramp_step > self.ramptime_in_chunks {
            self.ramp_step = 0;
        }
        self.reference_level = conf.reference_level;
        self.high_boost = conf.high_boost;
        self.low_boost = conf.low_boost;
        self.shelf_gains_at(shared_volume_mdb)
    }
}

} // verus!
