//! The sanitizer: replace every non-finite numeric sample of a reading with
//! `0.0`, leaving finite samples and all non-numeric fields unchanged. Total;
//! runs before a reading is persisted and before it is tagged or serialized.

use vstd::prelude::*;
use crate::fbits::{spec_sanitize_bits, sanitize_bits};
use crate::reading::{Reading, all_finite};

verus! {

/// The sanitized form of a reading: each of the eleven numeric samples is
/// sanitized, every other field is kept.
pub open spec fn spec_sanitize_reading(r: Reading) -> Reading {
    Reading {
        temp: spec_sanitize_bits(r.temp),
        rh: spec_sanitize_bits(r.rh),
        voc: spec_sanitize_bits(r.voc),
        nox: spec_sanitize_bits(r.nox),
        pmass1: spec_sanitize_bits(r.pmass1),
        pmass25: spec_sanitize_bits(r.pmass25),
        pmass4: spec_sanitize_bits(r.pmass4),
        pmass10: spec_sanitize_bits(r.pmass10),
        hcho: spec_sanitize_bits(r.hcho),
        co2: spec_sanitize_bits(r.co2),
        indoor_td: spec_sanitize_bits(r.indoor_td),
        ..r
    }
}

/// Sanitize a reading in place. Every numeric sample of the result is
/// finite; finite samples are unchanged; non-numeric fields are unchanged.
pub fn sanitize_reading(data: &mut Reading)
    ensures
        *final(data) == spec_sanitize_reading(*old(data)),
        all_finite(*final(data)),
{
    data.temp = sanitize_bits(data.temp);
    data.rh = sanitize_bits(data.rh);
    data.voc = sanitize_bits(data.voc);
    data.nox = sanitize_bits(data.nox);
    data.pmass1 = sanitize_bits(data.pmass1);
    data.pmass25 = sanitize_bits(data.pmass25);
    data.pmass4 = sanitize_bits(data.pmass4);
    data.pmass10 = sanitize_bits(data.pmass10);
    data.hcho = sanitize_bits(data.hcho);
    data.co2 = sanitize_bits(data.co2);
    data.indoor_td = sanitize_bits(data.indoor_td);
}

} // verus!
