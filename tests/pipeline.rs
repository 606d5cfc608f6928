use erddap_feeder::{
    build_and_filter_weather_data, build_query_args, insert_url, process_message, process_packet,
    rename_weather_keys, AcceptedMessage, AisCatcherDevice, AisCatcherMessage, AisCatcherReceiver,
    AisMessage, AisMessageIdentifier, AisStationData, AisType8Dac200Fid31, AppConfig, ArgsState,
    DecodeError, JsonNumber, JsonValue, MMSILookup, MessageOutcome, StringTable,
};

fn uint(n: u64) -> JsonValue {
    JsonValue::Number(JsonNumber::PosInt(n))
}

fn float(f: f64) -> JsonValue {
    JsonValue::Number(JsonNumber::Float(f.to_string()))
}

fn text(s: &str) -> JsonValue {
    JsonValue::Text(s.to_string())
}

fn message(entries: Vec<(&str, JsonValue)>) -> AisMessage {
    AisMessage { msg: entries.into_iter().map(|(k, v)| (k.to_string(), v)).collect() }
}

fn weather_message(mmsi: u64) -> AisMessage {
    message(vec![
        ("type", uint(8)),
        ("dac", uint(200)),
        ("fid", uint(31)),
        ("mmsi", uint(mmsi)),
        ("rxtime", text("20230615120000")),
        ("signalpower", float(-12.5)),
        ("wspeed", uint(12)),
        ("wgust", uint(15)),
        ("lat", float(53.12345)),
        ("lon", float(-6.5)),
    ])
}

fn config(publish: Vec<&str>, renames: Vec<(&str, &str)>, ignore: Vec<u64>) -> AppConfig {
    AppConfig {
        erddap_url: "https://erddap.test/erddap/tabledap/weather".to_string(),
        erddap_key: "user_secret".to_string(),
        publish_fields: publish.into_iter().map(|s| s.to_string()).collect(),
        rename_fields: renames.into_iter().map(|(a, b)| (a.to_string(), b.to_string())).collect(),
        message_config: vec![AcceptedMessage {
            msg_type: 8,
            dac: Some(200),
            fid: Some(31),
            ignore_mmsi: ignore,
        }],
        mmsi_lookup: vec![MMSILookup {
            mmsi: "222".to_string(),
            station_name: "Harbour Light".to_string(),
        }],
    }
}

fn state(cfg: AppConfig) -> ArgsState {
    ArgsState::from_config(cfg, false, false)
}

fn packet(msgs: Vec<AisMessage>) -> AisCatcherMessage {
    AisCatcherMessage {
        protocol: "jsonaiscatcher".to_string(),
        encodetime: "20230615120001".to_string(),
        stationid: "catcher".to_string(),
        receiver: AisCatcherReceiver {
            description: "AIS-catcher".to_string(),
            version: 61,
            engine: "engine".to_string(),
            setting: "".to_string(),
        },
        device: AisCatcherDevice {
            product: "rtl".to_string(),
            vendor: "v".to_string(),
            serial: "1".to_string(),
            setting: "".to_string(),
        },
        msgs,
    }
}

fn pairs(v: &[(&str, &str)]) -> Vec<(String, String)> {
    v.iter().map(|(a, b)| (a.to_string(), b.to_string())).collect()
}

#[test]
fn test_rename_weather_keys() {
    let wq = vec![("renameable".to_string(), "value".to_string())];
    let mut renames = StringTable::new();
    renames.insert("renameable".to_string(), "renamed".to_string());
    let x = rename_weather_keys(wq, &renames);
    let expected = vec![("renamed".to_string(), "value".to_string())];
    assert_eq!(x, expected);
}

#[test]
fn absent_fields_take_their_sentinels() {
    let w = AisType8Dac200Fid31::from_message(&message(vec![])).unwrap();
    assert_eq!(w.wspeed, 127);
    assert_eq!(w.wgust, 127);
    assert_eq!(w.wdir, 360);
    assert_eq!(w.wgustdir, 360);
    assert_eq!(w.pressure, 511);
    assert_eq!(w.pressuretend, 3);
    assert_eq!(w.leveltrend, 3);
    assert_eq!(w.cdir, 360);
    assert_eq!(w.cdir2, 360);
    assert_eq!(w.cdir3, 360);
    assert_eq!(w.cdepth2, 31);
    assert_eq!(w.cdepth3, 31);
    assert_eq!(w.waveperiod, 63);
    assert_eq!(w.swellperiod, 360);
    assert_eq!(w.seastate, 13);
    assert_eq!(w.preciptype, 7);
    assert_eq!(w.ice, 3);
    assert_eq!(w.airtemp, "-1024");
    assert_eq!(w.dewpoint, "50.1");
    assert_eq!(w.lat, "91");
    assert_eq!(w.lon, "181");
    assert_eq!(w.visibility, "12.7");
    assert_eq!(w.waterlevel, "30.01");
    assert_eq!(w.waveheight, "25.5");
    assert_eq!(w.salinity, "511");
}

#[test]
fn ice_is_read_from_its_own_field() {
    let w = AisType8Dac200Fid31::from_message(&message(vec![("preciptype", uint(1))])).unwrap();
    assert_eq!(w.preciptype, 1);
    assert_eq!(w.ice, 3);
}

#[test]
fn integer_fields_coerce_fractions() {
    let w = AisType8Dac200Fid31::from_message(&message(vec![
        ("wspeed", float(12.0)),
        ("wgust", float(12.5)),
        ("wdir", float(359.99)),
        ("pressure", JsonValue::Number(JsonNumber::NegInt(-4))),
        ("seastate", text("calm")),
        ("cdir", float(1e30)),
    ]))
    .unwrap();
    assert_eq!(w.wspeed, 12);
    assert_eq!(w.wgust, 12);
    assert_eq!(w.wdir, 359);
    assert_eq!(w.pressure, 0);
    assert_eq!(w.seastate, 13);
    assert_eq!(w.cdir, u64::MAX);
}

#[test]
fn fractional_field_rejects_non_numbers() {
    let r = AisType8Dac200Fid31::from_message(&message(vec![
        ("waveheight", text("high")),
        ("airtemp", JsonValue::Bool(true)),
    ]));
    assert_eq!(r.unwrap_err(), DecodeError::UnsupportedType("airtemp"));
}

#[test]
fn fractional_field_keeps_number_text() {
    let w = AisType8Dac200Fid31::from_message(&message(vec![
        ("airtemp", float(-3.25)),
        ("watertemp", uint(12)),
        ("waterlevel", JsonValue::Number(JsonNumber::NegInt(-2))),
    ]))
    .unwrap();
    assert_eq!(w.airtemp, "-3.25");
    assert_eq!(w.watertemp, "12");
    assert_eq!(w.waterlevel, "-2");
}

#[test]
fn filter_then_rename() {
    let args = state(config(vec!["wspeed"], vec![("wspeed", "Wind_Speed")], vec![]));
    let w = AisType8Dac200Fid31::from_message(&weather_message(5)).unwrap();
    let filtered = build_and_filter_weather_data(&w, &args);
    assert_eq!(filtered, pairs(&[("wspeed", "12")]));
    let renamed = rename_weather_keys(filtered, &args.rename_fields);
    assert_eq!(renamed, pairs(&[("Wind_Speed", "12")]));
    assert!(renamed.iter().all(|(k, _)| k != "wgust"));
}

#[test]
fn empty_allow_list_publishes_every_field() {
    let args = state(config(vec![], vec![("lat", "latitude")], vec![]));
    let w = AisType8Dac200Fid31::from_message(&weather_message(5)).unwrap();
    let filtered = build_and_filter_weather_data(&w, &args);
    assert_eq!(filtered.len(), 31);
    let renamed = rename_weather_keys(filtered.clone(), &args.rename_fields);
    assert_eq!(renamed.len(), 31);
    for (a, b) in filtered.iter().zip(renamed.iter()) {
        if a.0 == "lat" {
            assert_eq!(b.0, "latitude");
        } else {
            assert_eq!(a.0, b.0);
        }
        assert_eq!(a.1, b.1);
    }
}

#[test]
fn weather_fields_are_alphabetical_with_coordinates_to_three_places() {
    let w = AisType8Dac200Fid31::from_message(&weather_message(5)).unwrap();
    let q = w.as_query_arguments();
    let names: Vec<&str> = q.iter().map(|(k, _)| *k).collect();
    let mut sorted = names.clone();
    sorted.sort();
    assert_eq!(names, sorted);
    assert!(q.contains(&("lat", "53.123".to_string())));
    assert!(q.contains(&("lon", "-6.500".to_string())));
    assert!(q.contains(&("airtemp", "-1024".to_string())));
}

#[test]
fn coordinates_round_half_away_from_zero() {
    let mut w = AisType8Dac200Fid31::from_message(&message(vec![])).unwrap();
    w.lat = "-9.9995".to_string();
    w.lon = "179.99949".to_string();
    let q = w.as_query_arguments();
    assert!(q.contains(&("lat", "-10.000".to_string())));
    assert!(q.contains(&("lon", "179.999".to_string())));
}

#[test]
fn identifier_match_is_exact() {
    let args = state(config(vec![], vec![], vec![]));
    let no_parts = message(vec![("type", uint(8)), ("mmsi", uint(5)), ("rxtime", text("20230615120000"))]);
    let id = AisMessageIdentifier::from_message(&no_parts).unwrap();
    assert_eq!(id, AisMessageIdentifier { msg_type: 8, dac: None, fid: None });
    assert!(args.message_config_lookup.get(&id).is_none());
    assert!(matches!(process_message(&no_parts, &args), MessageOutcome::Skipped));
    let full = AisMessageIdentifier { msg_type: 8, dac: Some(200), fid: Some(31) };
    assert!(args.message_config_lookup.get(&full).is_some());
}

#[test]
fn identifier_parts_that_are_not_integers_are_absent() {
    let m = message(vec![("type", uint(8)), ("dac", text("200")), ("fid", float(31.5))]);
    let id = AisMessageIdentifier::from_message(&m).unwrap();
    assert_eq!(id, AisMessageIdentifier { msg_type: 8, dac: None, fid: None });
    assert!(AisMessageIdentifier::from_message(&message(vec![("dac", uint(200))])).is_none());
    assert_eq!(id.describe(), "AisMessageIdentifier(8/None/None)");
    let full = AisMessageIdentifier { msg_type: 8, dac: Some(200), fid: Some(31) };
    assert_eq!(full.describe(), "AisMessageIdentifier(8/200/31)");
}

#[test]
fn ignored_mmsi_is_excluded() {
    let args = state(config(vec![], vec![], vec![111]));
    assert!(matches!(process_message(&weather_message(111), &args), MessageOutcome::Ignored));
    assert!(matches!(process_message(&weather_message(222), &args), MessageOutcome::Submit(_)));
    let report = process_packet(&packet(vec![weather_message(111), weather_message(222)]), &args);
    assert_eq!(report.ignored, 1);
    assert_eq!(report.submitted, 1);
}

#[test]
fn rxtime_becomes_iso_time() {
    let s = AisStationData::from_message(&weather_message(222)).unwrap();
    assert_eq!(s.rxtime.to_iso(), "2023-06-15T12:00:00Z");
    assert_eq!(s.mmsi, 222);
    assert_eq!(s.signal_power, Some("-12.5".to_string()));
}

#[test]
fn station_decode_errors() {
    let no_time = message(vec![("mmsi", uint(1))]);
    assert_eq!(
        AisStationData::from_message(&no_time).unwrap_err(),
        DecodeError::MissingRequiredField("rxtime")
    );
    let bad_time = message(vec![("mmsi", uint(1)), ("rxtime", text("2023-06-15"))]);
    assert_eq!(
        AisStationData::from_message(&bad_time).unwrap_err(),
        DecodeError::MissingRequiredField("rxtime")
    );
    let numeric_time = message(vec![("mmsi", uint(1)), ("rxtime", uint(20230615120000))]);
    assert_eq!(
        AisStationData::from_message(&numeric_time).unwrap_err(),
        DecodeError::UnsupportedType("rxtime")
    );
    let no_mmsi = message(vec![("rxtime", text("20230615120000"))]);
    assert_eq!(
        AisStationData::from_message(&no_mmsi).unwrap_err(),
        DecodeError::MissingRequiredField("mmsi")
    );
    let text_mmsi = message(vec![("mmsi", text("1")), ("rxtime", text("20230615120000"))]);
    assert_eq!(
        AisStationData::from_message(&text_mmsi).unwrap_err(),
        DecodeError::UnsupportedType("mmsi")
    );
    let bad_power =
        message(vec![("mmsi", uint(1)), ("rxtime", text("20230615120000")), ("signalpower", JsonValue::Null)]);
    assert_eq!(
        AisStationData::from_message(&bad_power).unwrap_err(),
        DecodeError::UnsupportedType("signalpower")
    );
}

#[test]
fn submission_query_in_order() {
    let args = state(config(vec!["wspeed", "lat"], vec![("lat", "latitude")], vec![]));
    let m = weather_message(222);
    let s = AisStationData::from_message(&m).unwrap();
    let w = AisType8Dac200Fid31::from_message(&m).unwrap();
    let q = build_query_args(&s, &w, &args);
    assert_eq!(
        q,
        pairs(&[
            ("time", "2023-06-15T12:00:00Z"),
            ("station_name", "Harbour Light"),
            ("mmsi", "222"),
            ("latitude", "53.123"),
            ("wspeed", "12"),
            ("author", "user_secret"),
        ])
    );
    let unknown = AisStationData::from_message(&weather_message(999)).unwrap();
    let names = unknown.as_query_arguments(&args.mmsi_lookup);
    assert_eq!(names[1], ("station_name", "UNKNOWN".to_string()));
}

#[test]
fn packet_counts_end_to_end() {
    let args = state(config(vec![], vec![], vec![111]));
    let other_type = message(vec![("type", uint(1)), ("mmsi", uint(7))]);
    let no_parts = message(vec![("type", uint(8)), ("mmsi", uint(8)), ("rxtime", text("20230615120000"))]);
    let report = process_packet(
        &packet(vec![weather_message(111), other_type, weather_message(222), no_parts, weather_message(333)]),
        &args,
    );
    assert_eq!(report.total, 5);
    assert_eq!(report.submitted, 2);
    assert_eq!(report.skipped, 2);
    assert_eq!(report.ignored, 1);
    assert_eq!(report.failed, 0);
    assert_eq!(report.summary(), "Received 5 messages, submitted 2, skipped 2, ignored 1");
    assert!(matches!(report.outcomes[1], MessageOutcome::Skipped));
}

#[test]
fn decode_failure_does_not_stop_the_packet() {
    let args = state(config(vec![], vec![], vec![]));
    let broken = message(vec![("type", uint(8)), ("dac", uint(200)), ("fid", uint(31)), ("mmsi", uint(9))]);
    let report = process_packet(&packet(vec![broken, weather_message(222)]), &args);
    assert_eq!(report.failed, 1);
    assert_eq!(report.submitted, 1);
    assert!(matches!(
        report.outcomes[0],
        MessageOutcome::Failed(DecodeError::MissingRequiredField("rxtime"))
    ));
}

#[test]
fn empty_packet() {
    let args = state(config(vec![], vec![], vec![]));
    let report = process_packet(&packet(vec![]), &args);
    assert_eq!(report.total, 0);
    assert_eq!(report.summary(), "Received 0 messages, submitted 0, skipped 0, ignored 0");
}

#[test]
fn insert_endpoint() {
    assert_eq!(insert_url("https://e.test/erddap/tabledap/ds"), "https://e.test/erddap/tabledap/ds.insert");
}
