//! Location-to-zone-id conversion: a client-supplied location string that
//! reads as a signed decimal integer becomes that zone id; anything else
//! maps to zone 0. The fallback is a deliberate leniency, kept as a named
//! policy so it is easy to audit; it conflates zone zero with invalid input.

use vstd::prelude::*;
use vstd::string::*;

verus! {

pub open spec fn is_digit_char(c: char) -> bool {
    48 <= c as int && c as int <= 57
}

pub open spec fn digit_val(c: char) -> int {
    c as int - 48
}

pub open spec fn all_digits(s: Seq<char>) -> bool {
    forall|i: int| 0 <= i < s.len() ==> is_digit_char(s[i])
}

/// The number a sequence of decimal digits denotes, most significant first.
pub open spec fn digits_value(s: Seq<char>) -> int
    decreases s.len(),
{
    if s.len() == 0 {
        0
    } else {
        digits_value(s.drop_last()) * 10 + digit_val(s.last())
    }
}

/// The reading of a signed decimal string, as the standard integer parser
/// accepts one: an optional `+` or `-` sign, then one or more ASCII digits,
/// with the signed value inside the 32-bit range; anything else is no
/// reading.
pub open spec fn spec_parse_i32(s: Seq<char>) -> Option<int> {
    let unsigned = if s.len() > 0 && (s[0] == '-' || s[0] == '+') {
        s.skip(1)
    } else {
        s
    };
    let neg = s.len() > 0 && s[0] == '-';
    if unsigned.len() > 0 && all_digits(unsigned) {
        let v = if neg {
            -digits_value(unsigned)
        } else {
            digits_value(unsigned)
        };
        if -0x8000_0000 <= v && v <= 0x7fff_ffff {
            Some(v)
        } else {
            None
        }
    } else {
        None
    }
}

/// The zone id a location string resolves to: its decimal reading, or 0
/// when it has none.
pub open spec fn spec_zone_id(s: Seq<char>) -> int {
    match spec_parse_i32(s) {
        Some(v) => v,
        None => 0,
    }
}

/// Parse a signed decimal 32-bit integer, exactly as `spec_parse_i32`
/// reads the string.
#[verifier::loop_isolation(false)]
pub fn parse_i32(s: &str) -> (r: Option<i32>)
    ensures
        match r {
            Some(v) => spec_parse_i32(s@) == Some(v as int),
            None => spec_parse_i32(s@) is None,
        },
{
    let n = s.unicode_len();
    if n == 0 {
        return None;
    }
    let first = s.get_char(0);
    let neg = first == '-';
    let has_sign = neg || first == '+';
    let start: usize = if has_sign {
        1
    } else {
        0
    };
    let ghost unsigned = if has_sign {
        s@.skip(1)
    } else {
        s@
    };
    proof {
        assert(unsigned =~= s@.subrange(start as int, n as int));
    }
    if start == n {
        return None;
    }
    let mut i: usize = start;
    let mut acc: u64 = 0;
    let mut too_big = false;
    while i < n
        invariant
            start <= i <= n,
            n == s@.len(),
            start == 0 || start == 1,
            all_digits(s@.subrange(start as int, i as int)),
            !too_big ==> acc == digits_value(s@.subrange(start as int, i as int)) && acc
                <= 0x8000_0000,
            too_big ==> digits_value(s@.subrange(start as int, i as int)) > 0x8000_0000,
        decreases n - i,
    {
        let c = s.get_char(i);
        let cu = c as u32;
        if cu < 48 || cu > 57 {
            proof {
                assert(unsigned =~= s@.subrange(start as int, n as int));
                assert(unsigned[i - start] == s@[i as int]);
                assert(!all_digits(unsigned));
            }
            return None;
        }
        let d = (cu - 48) as u64;
        proof {
            let pre = s@.subrange(start as int, i as int);
            let post = s@.subrange(start as int, i + 1 as int);
            assert(post.drop_last() =~= pre);
            assert(post.last() == s@[i as int]);
            assert(digits_value(post) == digits_value(pre) * 10 + digit_val(s@[i as int]));
            assert(all_digits(post));
        }
        if !too_big {
            let next = acc * 10 + d;
            if next > 0x8000_0000 {
                too_big = true;
            } else {
                acc = next;
            }
        }
        i += 1;
    }
    proof {
        assert(unsigned =~= s@.subrange(start as int, n as int));
        assert(unsigned.len() > 0);
        assert(all_digits(unsigned));
    }
    if too_big {
        return None;
    }
    if neg {
        if acc == 0x8000_0000 {
            Some(-0x7fff_ffff - 1)
        } else {
            Some(-(acc as i32))
        }
    } else {
        if acc > 0x7fff_ffff {
            None
        } else {
            Some(acc as i32)
        }
    }
}

/// The fallback policy for a location with no decimal reading: zone 0.
pub fn zone_id_policy(parsed: Option<i32>) -> (z: i32)
    ensures
        z as int == match parsed {
            Some(v) => v as int,
            None => 0,
        },
{
    match parsed {
        Some(v) => v,
        None => 0,
    }
}

/// Resolve a location string to its zone id: its decimal reading, or zone 0
/// when it has none.
pub fn zone_id_of_location(location: &str) -> (z: i32)
    ensures
        z as int == spec_zone_id(location@),
{
    zone_id_policy(parse_i32(location))
}

} // verus!
