use sensor_api::query::{build_select_query, BindValue};
use sensor_api::reading::Reading;
use sensor_api::repo::{finish_fetched, finish_reading, plan_insert, StorageError};

fn stored_row(id: i32, rec_time_micros: i64, temp: f64, co2: f64) -> Reading {
    Reading {
        id: Some(id),
        location: "3".to_string(),
        rec_time: Some(rec_time_micros),
        timestamp: None,
        temp: temp.to_bits(),
        rh: (40.0f64).to_bits(),
        voc: (120.0f64).to_bits(),
        nox: (1.0f64).to_bits(),
        pmass1: (1.5f64).to_bits(),
        pmass25: (2.5f64).to_bits(),
        pmass4: (3.5f64).to_bits(),
        pmass10: (4.5f64).to_bits(),
        hcho: (0.25f64).to_bits(),
        co2: co2.to_bits(),
        indoor_td: (9.0f64).to_bits(),
        tags: None,
    }
}

fn rfc3339(micros: i64) -> String {
    chrono::DateTime::<chrono::Utc>::from_timestamp_micros(micros)
        .expect("in range")
        .to_rfc3339()
}

#[test]
fn finished_reading_renders_its_storage_time() {
    let out = finish_reading(stored_row(1, 0, 20.0, 500.0));
    assert_eq!(out.timestamp.as_deref(), Some("1970-01-01T00:00:00+00:00"));

    let us = 1_662_921_288_123_456i64;
    let out = finish_reading(stored_row(2, us, 20.0, 500.0));
    assert_eq!(out.timestamp, Some(rfc3339(us)));
    assert_eq!(out.rec_time, Some(us));
    assert_eq!(out.id, Some(2));
}

#[test]
fn finished_reading_without_storage_time_has_no_timestamp() {
    let mut row = stored_row(1, 0, 20.0, 500.0);
    row.rec_time = None;
    let out = finish_reading(row);
    assert_eq!(out.timestamp, None);
}

#[test]
fn finished_reading_sanitizes_then_tags() {
    let mut row = stored_row(1, 1_000_000, 30.0, 1200.0);
    row.rh = f64::NAN.to_bits();
    let out = finish_reading(row);
    assert_eq!(f64::from_bits(out.rh), 0.0);
    assert_eq!(f64::from_bits(out.temp), 30.0);
    assert_eq!(
        out.tags,
        Some(vec!["high-temperature".to_string(), "high-co2".to_string()])
    );
}

#[test]
fn tags_are_decided_on_sanitized_values() {
    // An infinite temperature and a NaN CO2 sanitize to 0.0 before tagging:
    // no high-temperature or high-co2 tag can fire from the raw values, and
    // the zero temperature is genuinely low.
    let row = stored_row(1, 1_000_000, f64::INFINITY, f64::NAN);
    let out = finish_reading(row);
    assert_eq!(f64::from_bits(out.temp), 0.0);
    assert_eq!(f64::from_bits(out.co2), 0.0);
    assert_eq!(out.tags, Some(vec!["low-temperature".to_string()]));
}

#[test]
fn fetch_result_is_capped_by_the_limit_and_keeps_order() {
    let rows = vec![
        stored_row(3, 3_000_000, 20.0, 400.0),
        stored_row(2, 2_000_000, 20.0, 400.0),
        stored_row(1, 1_000_000, 20.0, 400.0),
    ];
    let out = finish_fetched(rows, 2);
    assert_eq!(out.len(), 2);
    assert_eq!(out[0].id, Some(3));
    assert_eq!(out[1].id, Some(2));
    assert!(out[0].rec_time >= out[1].rec_time);
}

#[test]
fn fetch_result_keeps_every_row_under_a_large_limit() {
    let rows = vec![
        stored_row(2, 2_000_000, f64::NAN, 400.0),
        stored_row(1, 1_000_000, 20.0, f64::NEG_INFINITY),
    ];
    let out = finish_fetched(rows, 15000);
    assert_eq!(out.len(), 2);
    for r in &out {
        for bits in [
            r.temp, r.rh, r.voc, r.nox, r.pmass1, r.pmass25, r.pmass4, r.pmass10, r.hcho, r.co2,
            r.indoor_td,
        ] {
            assert!(f64::from_bits(bits).is_finite());
        }
    }
}

#[test]
fn insert_plan_binds_zone_then_samples_in_column_order() {
    let mut reading = stored_row(0, 0, 21.0, 600.0);
    reading.id = None;
    reading.rec_time = None;
    reading.location = "42".to_string();
    reading.nox = f64::NAN.to_bits();
    let q = plan_insert(reading);
    assert_eq!(
        q.text,
        "INSERT INTO IAQ_SEN55 (location, temp, rH, pmass1, pmass25, pmass4, pmass10, \
         VOC, NOx, HCHO, CO2, indoorTd) VALUES (?, ?, ?, ?, ?, ?, ?, ?, ?, ?, ?, ?)"
    );
    assert_eq!(
        q.binds,
        vec![
            BindValue::Int(42),
            BindValue::Num((21.0f64).to_bits()),
            BindValue::Num((40.0f64).to_bits()),
            BindValue::Num((1.5f64).to_bits()),
            BindValue::Num((2.5f64).to_bits()),
            BindValue::Num((3.5f64).to_bits()),
            BindValue::Num((4.5f64).to_bits()),
            BindValue::Num((120.0f64).to_bits()),
            BindValue::Num((0.0f64).to_bits()),
            BindValue::Num((0.25f64).to_bits()),
            BindValue::Num((600.0f64).to_bits()),
            BindValue::Num((9.0f64).to_bits()),
        ]
    );
}

#[test]
fn insert_plan_maps_unreadable_location_to_zone_zero() {
    let mut reading = stored_row(0, 0, 21.0, 600.0);
    reading.location = "not-a-number".to_string();
    let q = plan_insert(reading);
    assert_eq!(q.binds[0], BindValue::Int(0));
}

#[test]
fn storage_error_carries_its_cause() {
    let e = StorageError::new("connection refused".to_string());
    assert_eq!(e.message(), "connection refused");
}

#[test]
fn insert_then_fetch_round_trip_tags_hot_stale_air() {
    // A client submits temp 30.0 and CO2 1200.0; storage keeps the planned
    // bind values and assigns id and a timestamp; a later ranged fetch must
    // return the reading tagged high-temperature then high-co2.
    let submitted = Reading {
        id: None,
        location: "7".to_string(),
        rec_time: None,
        timestamp: None,
        temp: (30.0f64).to_bits(),
        rh: (45.0f64).to_bits(),
        voc: (110.0f64).to_bits(),
        nox: (1.0f64).to_bits(),
        pmass1: (1.0f64).to_bits(),
        pmass25: (2.0f64).to_bits(),
        pmass4: (3.0f64).to_bits(),
        pmass10: (4.0f64).to_bits(),
        hcho: (0.1f64).to_bits(),
        co2: (1200.0f64).to_bits(),
        indoor_td: (8.0f64).to_bits(),
        tags: None,
    };
    let plan = plan_insert(submitted);

    // The stored row, as the table keeps it.
    let zone = match plan.binds[0] {
        BindValue::Int(z) => z,
        _ => panic!("zone bind should be an integer"),
    };
    let sample = |i: usize| match plan.binds[i] {
        BindValue::Num(bits) => bits,
        _ => panic!("sample bind should be numeric"),
    };
    let stored_at = 1_700_000_000_000_000i64;
    let row = Reading {
        id: Some(1),
        location: zone.to_string(),
        rec_time: Some(stored_at),
        timestamp: None,
        temp: sample(1),
        rh: sample(2),
        pmass1: sample(3),
        pmass25: sample(4),
        pmass4: sample(5),
        pmass10: sample(6),
        voc: sample(7),
        nox: sample(8),
        hcho: sample(9),
        co2: sample(10),
        indoor_td: sample(11),
        tags: None,
    };

    // A fetch whose range covers the insert time, limit 1.
    let q = build_select_query(
        Some("2023-01-01 00:00:00".to_string()),
        Some("2024-01-01 00:00:00".to_string()),
        1,
    );
    assert_eq!(q.binds.len(), 3);
    let out = finish_fetched(vec![row], 1);
    assert_eq!(out.len(), 1);
    assert_eq!(out[0].location, "7");
    assert_eq!(out[0].timestamp, Some(rfc3339(stored_at)));
    assert_eq!(
        out[0].tags,
        Some(vec!["high-temperature".to_string(), "high-co2".to_string()])
    );
}
