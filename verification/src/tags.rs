//! The tagger: derive descriptive labels from a sanitized reading. The
//! temperature group is first-match-wins (high before low); the CO2 check is
//! independent. Boundary values do not trigger a tag (strict inequality).

use vstd::prelude::*;
use vstd::string::*;
use crate::fbits::{float_key, key_gt, key_lt};
use crate::reading::Reading;

verus! {

/// Bit pattern of the double `25.0`: temperatures strictly above it are
/// tagged high.
pub const HIGH_TEMP_BITS: u64 = 0x4039_0000_0000_0000;

/// Bit pattern of the double `18.0`: temperatures strictly below it are
/// tagged low.
pub const LOW_TEMP_BITS: u64 = 0x4032_0000_0000_0000;

/// Bit pattern of the double `1000.0`: CO2 levels strictly above it are
/// tagged high.
pub const HIGH_CO2_BITS: u64 = 0x408f_4000_0000_0000;

/// Tags fired by the temperature sample: at most one, high before low.
pub open spec fn spec_temp_tags(temp: u64) -> Seq<Seq<char>> {
    if float_key(temp) > float_key(HIGH_TEMP_BITS) {
        seq!["high-temperature"@]
    } else if float_key(temp) < float_key(LOW_TEMP_BITS) {
        seq!["low-temperature"@]
    } else {
        Seq::empty()
    }
}

/// Tags fired by the CO2 sample.
pub open spec fn spec_co2_tags(co2: u64) -> Seq<Seq<char>> {
    if float_key(co2) > float_key(HIGH_CO2_BITS) {
        seq!["high-co2"@]
    } else {
        Seq::empty()
    }
}

/// All tags of a reading with the given temperature and CO2 samples, in
/// order: the temperature tag, if any, then the CO2 tag, if any.
pub open spec fn spec_tags(temp: u64, co2: u64) -> Seq<Seq<char>> {
    spec_temp_tags(temp) + spec_co2_tags(co2)
}

/// Derive the tag list of a reading. The result is absent (not an empty
/// list) when no tag condition fires.
pub fn derive_tags(r: &Reading) -> (t: Option<Vec<String>>)
    ensures
        (t is Some) <==> spec_tags(r.temp, r.co2).len() > 0,
        t matches Some(v) ==> v.deep_view() == spec_tags(r.temp, r.co2),
{
    let mut tags: Vec<String> = Vec::new();
    if key_gt(r.temp, HIGH_TEMP_BITS) {
        tags.push(String::from_str("high-temperature"));
    } else if key_lt(r.temp, LOW_TEMP_BITS) {
        tags.push(String::from_str("low-temperature"));
    }
    if key_gt(r.co2, HIGH_CO2_BITS) {
        tags.push(String::from_str("high-co2"));
    }
    if tags.len() > 0 {
        proof {
            assert(tags.deep_view() =~~= spec_tags(r.temp, r.co2));
        }
        Some(tags)
    } else {
        proof {
            assert(spec_tags(r.temp, r.co2).len() == 0);
        }
        None
    }
}

} // verus!
