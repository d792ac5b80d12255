//! The repository compute layer: everything `fetch` and `insert` decide
//! short of the database round trip itself. `build_select_query` (in
//! `query`) plans a fetch; `finish_fetched` sanitizes, timestamps and tags
//! the rows a fetch returned; `plan_insert` sanitizes a client reading,
//! resolves its zone id and lays out the insert statement with its bind
//! values. The caller executes the planned statements against its pooled
//! connection and surfaces any fault as a `StorageError`.

use vstd::prelude::*;
use vstd::string::*;
use crate::fbits::spec_sanitize_bits;
use crate::query::{BindValue, BindView, BuiltQuery, bind_view, binds_view};
use crate::reading::{Reading, all_finite};
use crate::sanitize::sanitize_reading;
use crate::tags::{derive_tags, spec_tags};
use crate::time::{micros_in_datetime_range, rfc3339_of, rfc3339_utc_of_micros};
use crate::zone::{spec_zone_id, zone_id_of_location};

verus! {

/// The one error kind the core produces: a storage fault, carrying the
/// underlying cause for diagnostics.
pub struct StorageError {
    pub detail: String,
}

impl StorageError {
    pub fn new(detail: String) -> (e: StorageError)
        ensures
            e.detail@ == detail@,
    {
        StorageError { detail }
    }

    /// The underlying cause, for the boundary's diagnostics.
    pub fn message(&self) -> (m: &String)
        ensures
            m@ == self.detail@,
    {
        &self.detail
    }
}

/// How a finished reading relates to the stored row it was made from:
/// identity, location and storage time are kept; every numeric sample is
/// sanitized; the output timestamp is the RFC 3339 rendering of the storage
/// time where one exists; the tags are those of the sanitized samples, and
/// absent rather than empty.
pub open spec fn finished_from(row: Reading, out: Reading) -> bool {
    &&& out.id == row.id
    &&& out.location == row.location
    &&& out.rec_time == row.rec_time
    &&& out.temp == spec_sanitize_bits(row.temp)
    &&& out.rh == spec_sanitize_bits(row.rh)
    &&& out.voc == spec_sanitize_bits(row.voc)
    &&& out.nox == spec_sanitize_bits(row.nox)
    &&& out.pmass1 == spec_sanitize_bits(row.pmass1)
    &&& out.pmass25 == spec_sanitize_bits(row.pmass25)
    &&& out.pmass4 == spec_sanitize_bits(row.pmass4)
    &&& out.pmass10 == spec_sanitize_bits(row.pmass10)
    &&& out.hcho == spec_sanitize_bits(row.hcho)
    &&& out.co2 == spec_sanitize_bits(row.co2)
    &&& out.indoor_td == spec_sanitize_bits(row.indoor_td)
    &&& all_finite(out)
    &&& match row.rec_time {
        Some(us) => {
            &&& micros_in_datetime_range(us) ==> (out.timestamp matches Some(ts) && ts@
                == rfc3339_of(us))
            &&& !micros_in_datetime_range(us) ==> out.timestamp is None
        },
        None => out.timestamp is None,
    }
    &&& ((out.tags is Some) <==> spec_tags(
        spec_sanitize_bits(row.temp),
        spec_sanitize_bits(row.co2),
    ).len() > 0)
    &&& (out.tags matches Some(v) ==> v.deep_view() == spec_tags(
        spec_sanitize_bits(row.temp),
        spec_sanitize_bits(row.co2),
    ))
}

/// Finish one stored row for output: sanitize its samples, render its
/// storage time as the output timestamp, and derive its tags.
pub fn finish_reading(row: Reading) -> (out: Reading)
    ensures
        finished_from(row, out),
{
    let mut item = row;
    sanitize_reading(&mut item);
    item.timestamp = match item.rec_time {
        Some(us) => rfc3339_utc_of_micros(us),
        None => None,
    };
    item.tags = derive_tags(&item);
    item
}

/// How many of `n_rows` fetched rows are kept under `limit`.
pub open spec fn spec_kept(n_rows: nat, limit: i64) -> nat {
    if n_rows <= limit {
        n_rows
    } else {
        limit as nat
    }
}

/// Finish every fetched row, keeping at most `limit` rows in their fetched
/// order. Every kept reading is sanitized, timestamped and tagged.
pub fn finish_fetched(rows: Vec<Reading>, limit: i64) -> (out: Vec<Reading>)
    requires
        1 <= limit,
    ensures
        out@.len() == spec_kept(rows@.len(), limit),
        out@.len() <= limit,
        forall|k: int| 0 <= k < out@.len() ==> finished_from(rows@[k], out@[k]),
        forall|k: int| 0 <= k < out@.len() ==> all_finite(#[trigger] out@[k]),
        desc_by_rec_time(rows@) ==> desc_by_rec_time(out@),
{
    let ghost orig = rows@;
    let keep: usize = if (rows.len() as u64) > (limit as u64) {
        limit as usize
    } else {
        rows.len()
    };
    let mut rest = rows;
    let mut out: Vec<Reading> = Vec::new();
    while out.len() < keep
        invariant
            out@.len() <= keep <= orig.len(),
            keep == spec_kept(orig.len(), limit),
            1 <= limit,
            rest@ =~= orig.skip(out@.len() as int),
            forall|k: int| 0 <= k < out@.len() ==> finished_from(orig[k], out@[k]),
        decreases keep - out@.len(),
    {
        let row = rest.remove(0);
        proof {
            assert(row == orig[out@.len() as int]);
        }
        let done = finish_reading(row);
        out.push(done);
        proof {
            assert(rest@ =~= orig.skip(out@.len() as int));
        }
    }
    proof {
        assert forall|k: int| 0 <= k < out@.len() implies all_finite(#[trigger] out@[k]) by {
            assert(finished_from(orig[k], out@[k]));
        }
        if desc_by_rec_time(orig) {
            lemma_finish_keeps_order(orig, out@);
        }
    }
    out
}

/// Order key of a reading's storage time; a reading without one sorts last.
pub open spec fn rec_time_key(r: Reading) -> int {
    match r.rec_time {
        Some(us) => us as int,
        None => -0x8000_0000_0000_0000 - 1,
    }
}

/// The sequence is ordered by storage time, newest first.
pub open spec fn desc_by_rec_time(s: Seq<Reading>) -> bool {
    forall|i: int, j: int|
        0 <= i <= j < s.len() ==> rec_time_key(s[i]) >= rec_time_key(s[j])
}

/// Finishing fetched rows keeps storage order: when the rows came back
/// newest first, the finished readings are newest first too.
pub proof fn lemma_finish_keeps_order(rows: Seq<Reading>, out: Seq<Reading>)
    requires
        out.len() <= rows.len(),
        forall|k: int| 0 <= k < out.len() ==> finished_from(rows[k], out[k]),
        desc_by_rec_time(rows),
    ensures
        desc_by_rec_time(out),
{
    assert forall|i: int, j: int|
        0 <= i <= j < out.len() implies rec_time_key(out[i]) >= rec_time_key(out[j]) by {
        assert(finished_from(rows[i], out[i]));
        assert(finished_from(rows[j], out[j]));
        assert(rec_time_key(out[i]) == rec_time_key(rows[i]));
        assert(rec_time_key(out[j]) == rec_time_key(rows[j]));
    }
}

/// The parameterized insert statement: one placeholder per stored column,
/// no interpolated value.
pub open spec fn insert_text() -> Seq<char> {
    "INSERT INTO IAQ_SEN55 (location, temp, rH, pmass1, pmass25, pmass4, pmass10, VOC, NOx, HCHO, CO2, indoorTd) VALUES (?, ?, ?, ?, ?, ?, ?, ?, ?, ?, ?, ?)"@
}

/// The bind values of an insert of `r`: the zone id its location resolves
/// to, then the sanitized samples in column order.
pub open spec fn spec_insert_binds(r: Reading) -> Seq<BindView> {
    seq![
        BindView::Int(spec_zone_id(r.location@)),
        BindView::Num(spec_sanitize_bits(r.temp)),
        BindView::Num(spec_sanitize_bits(r.rh)),
        BindView::Num(spec_sanitize_bits(r.pmass1)),
        BindView::Num(spec_sanitize_bits(r.pmass25)),
        BindView::Num(spec_sanitize_bits(r.pmass4)),
        BindView::Num(spec_sanitize_bits(r.pmass10)),
        BindView::Num(spec_sanitize_bits(r.voc)),
        BindView::Num(spec_sanitize_bits(r.nox)),
        BindView::Num(spec_sanitize_bits(r.hcho)),
        BindView::Num(spec_sanitize_bits(r.co2)),
        BindView::Num(spec_sanitize_bits(r.indoor_td)),
    ]
}

/// Plan the insert of a client-submitted reading: sanitize its samples,
/// resolve its location to a zone id (zone 0 when it has no decimal
/// reading), and lay out the statement with its bind values.
pub fn plan_insert(data: Reading) -> (q: BuiltQuery)
    ensures
        q.text@ == insert_text(),
        binds_view(q.binds@) == spec_insert_binds(data),
{
    let ghost orig = data;
    let mut item = data;
    sanitize_reading(&mut item);
    let zone = zone_id_of_location(item.location.as_str());
    let mut binds: Vec<BindValue> = Vec::new();
    binds.push(BindValue::Int(zone as i64));
    binds.push(BindValue::Num(item.temp));
    binds.push(BindValue::Num(item.rh));
    binds.push(BindValue::Num(item.pmass1));
    binds.push(BindValue::Num(item.pmass25));
    binds.push(BindValue::Num(item.pmass4));
    binds.push(BindValue::Num(item.pmass10));
    binds.push(BindValue::Num(item.voc));
    binds.push(BindValue::Num(item.nox));
    binds.push(BindValue::Num(item.hcho));
    binds.push(BindValue::Num(item.co2));
    binds.push(BindValue::Num(item.indoor_td));
    proof {
        assert(binds_view(binds@) =~= spec_insert_binds(orig));
    }
    let text = String::from_str(
        "INSERT INTO IAQ_SEN55 (location, temp, rH, pmass1, pmass25, pmass4, pmass10, VOC, NOx, HCHO, CO2, indoorTd) VALUES (?, ?, ?, ?, ?, ?, ?, ?, ?, ?, ?, ?)",
    );
    BuiltQuery { text, binds }
}

} // verus!
