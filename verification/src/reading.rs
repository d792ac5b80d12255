//! The data model: one sensor reading with its numeric samples, identity and
//! timing. Numeric samples are carried as IEEE-754 double bit patterns (see
//! `fbits`); the storage timestamp is carried as microseconds since the Unix
//! epoch.

use vstd::prelude::*;
use crate::fbits::is_finite_bits;

verus! {

/// One sensor sample. `id` and `rec_time` are storage-assigned and absent on
/// client input; `timestamp` is the output-only RFC 3339 rendering of
/// `rec_time`; `tags` is derived on fetch and absent when no tag fires.
pub struct Reading {
    pub id: Option<i32>,
    pub location: String,
    pub rec_time: Option<i64>,
    pub timestamp: Option<String>,
    pub temp: u64,
    pub rh: u64,
    pub voc: u64,
    pub nox: u64,
    pub pmass1: u64,
    pub pmass25: u64,
    pub pmass4: u64,
    pub pmass10: u64,
    pub hcho: u64,
    pub co2: u64,
    pub indoor_td: u64,
    pub tags: Option<Vec<String>>,
}

/// Every numeric sample of the reading denotes a finite double.
pub open spec fn all_finite(r: Reading) -> bool {
    &&& is_finite_bits(r.temp)
    &&& is_finite_bits(r.rh)
    &&& is_finite_bits(r.voc)
    &&& is_finite_bits(r.nox)
    &&& is_finite_bits(r.pmass1)
    &&& is_finite_bits(r.pmass25)
    &&& is_finite_bits(r.pmass4)
    &&& is_finite_bits(r.pmass10)
    &&& is_finite_bits(r.hcho)
    &&& is_finite_bits(r.co2)
    &&& is_finite_bits(r.indoor_td)
}

} // verus!
