//! Conversion of an echo round-trip time into a distance.
//!
//! The ranging protocol pulses a trigger pin and times how long the echo
//! pin stays high; that duration, in microseconds, is the time the sound
//! pulse took to reach the object and come back.  Sound covers 343
//! micrometers per microsecond (343 m/s), and the echo travels the
//! distance twice, so the distance in millimeters is
//! `343 * elapsed_us / 2000`.  Distances are held as whole millimeters;
//! the coarser units are derived from the millimeter value by exact
//! integer scaling.

use vstd::arithmetic::div_mod::{lemma_div_is_ordered, lemma_div_multiples_vanish};
use vstd::arithmetic::mul::lemma_mul_inequality;
use vstd::prelude::*;

verus! {

/// Distance covered by sound in one microsecond, in micrometers (343 m/s).
pub open spec fn speed_of_sound_um_per_us() -> nat {
    343
}

/// The distance in millimeters that an echo round trip of `elapsed_us`
/// microseconds measures: sound covers 343 micrometers per microsecond,
/// the pulse travels the distance twice, and the result is rounded down
/// to whole millimeters.
pub open spec fn distance_mm_of_elapsed(elapsed_us: nat) -> nat {
    (speed_of_sound_um_per_us() * elapsed_us) / 2000
}

/// One distance measurement, presented in several units.
///
/// The millimeter field is the measurement itself; the coarser fields
/// are presentation-only rescalings of it, not separate measurements.
pub struct Unit {
    pub millimeters: u64,
    pub centimeters: u64,
    pub decimeters: u64,
    pub meters: u64,
}

impl Unit {
    /// The coarser units are consistent rescalings of the millimeter value.
    pub open spec fn consistent(self) -> bool {
        &&& self.centimeters == self.millimeters / 10
        &&& self.decimeters == self.millimeters / 100
        &&& self.meters == self.millimeters / 1000
    }

    /// Converts an echo round-trip time in microseconds into a distance.
    pub fn from_elapsed_us(elapsed_us: u64) -> (u: Unit)
        ensures
            u.millimeters == distance_mm_of_elapsed(elapsed_us as nat),
            u.consistent(),
    {
        proof {
            lemma_distance_mm_fits_u64(elapsed_us as nat);
        }
        let wide: u128 = (343 as u128) * (elapsed_us as u128) / 2000;
        let millimeters: u64 = wide as u64;
        Unit {
            millimeters,
            centimeters: millimeters / 10,
            decimeters: millimeters / 100,
            meters: millimeters / 1000,
        }
    }
}

/// The millimeter distance never exceeds the elapsed time in
/// microseconds, because sound covers well under one millimeter per
/// microsecond of round trip; in particular it fits in a `u64` whenever
/// the elapsed time does.
pub proof fn lemma_distance_mm_fits_u64(elapsed_us: nat)
    ensures
        distance_mm_of_elapsed(elapsed_us) <= elapsed_us,
{
    lemma_mul_inequality(343, 2000, elapsed_us as int);
    lemma_div_is_ordered(343 * elapsed_us as int, 2000 * elapsed_us as int, 2000);
    lemma_div_multiples_vanish(elapsed_us as int, 2000);
}

} // verus!
