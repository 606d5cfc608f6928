use erddap_feeder::{
    build_field_rename_map, build_message_config_lookup, build_mmsi_to_station_id_map, check_config,
    AcceptedMessage, AisMessageIdentifier, AppConfig, ConfigProblem, MMSILookup, StringTable,
    UtcTime, DEFAULT_KEY, DEFAULT_MMSI, DEFAULT_URL,
};

fn edited() -> AppConfig {
    let mut c = AppConfig::default();
    c.erddap_url = "https://erddap.test/x".to_string();
    c.erddap_key = "me_pw".to_string();
    c.mmsi_lookup = vec![MMSILookup { mmsi: "123".to_string(), station_name: "A".to_string() }];
    c
}

#[test]
fn default_config_holds_the_examples() {
    let c = AppConfig::default();
    assert_eq!(c.erddap_url, DEFAULT_URL);
    assert_eq!(c.erddap_key, DEFAULT_KEY);
    assert_eq!(c.publish_fields.len(), 8);
    assert_eq!(c.rename_fields[1], ("lon".to_string(), "longitude".to_string()));
    assert_eq!(c.mmsi_lookup[0].mmsi, DEFAULT_MMSI);
    assert_eq!(check_config(&c), Err(ConfigProblem::DefaultMmsiLookup));
}

#[test]
fn config_checks_in_order() {
    assert_eq!(check_config(&edited()), Ok(()));
    let mut c = edited();
    c.mmsi_lookup.clear();
    c.erddap_url = DEFAULT_URL.to_string();
    assert_eq!(check_config(&c), Err(ConfigProblem::EmptyMmsiLookup));
    let mut c = edited();
    c.erddap_url = DEFAULT_URL.to_string();
    c.erddap_key = DEFAULT_KEY.to_string();
    assert_eq!(check_config(&c), Err(ConfigProblem::DefaultErddapUrl));
    let mut c = edited();
    c.erddap_key = DEFAULT_KEY.to_string();
    assert_eq!(check_config(&c), Err(ConfigProblem::DefaultErddapKey));
}

#[test]
fn later_entries_win() {
    let mut c = edited();
    c.mmsi_lookup.push(MMSILookup { mmsi: "123".to_string(), station_name: "B".to_string() });
    c.rename_fields.push(("lat".to_string(), "y".to_string()));
    c.message_config.push(AcceptedMessage { msg_type: 8, dac: Some(200), fid: Some(31), ignore_mmsi: vec![4] });
    assert_eq!(build_mmsi_to_station_id_map(&c).get("123").unwrap(), "B");
    assert_eq!(build_field_rename_map(&c).get("lat").unwrap(), "y");
    assert_eq!(build_field_rename_map(&c).get("lon").unwrap(), "longitude");
    let t = build_message_config_lookup(&c);
    let id = AisMessageIdentifier { msg_type: 8, dac: Some(200), fid: Some(31) };
    assert_eq!(t.get(&id).unwrap().ignore_mmsi, vec![4]);
    assert!(t.get(&id).unwrap().is_excluded(4));
    assert!(!t.get(&id).unwrap().is_excluded(5));
}

#[test]
fn string_table_lookups() {
    let mut t = StringTable::new();
    assert!(t.get("a").is_none());
    t.insert("a".to_string(), "1".to_string());
    t.insert("b".to_string(), "2".to_string());
    t.insert("a".to_string(), "3".to_string());
    assert_eq!(t.get("a").unwrap(), "3");
    assert_eq!(t.get("b").unwrap(), "2");
}

#[test]
fn iso_years_outside_four_digits() {
    let t = UtcTime { year: 10000, month: 1, day: 2, hour: 3, minute: 4, second: 60 };
    assert_eq!(t.to_iso(), "+10000-01-02T03:04:60Z");
    let t = UtcTime { year: -1, month: 12, day: 31, hour: 23, minute: 59, second: 0 };
    assert_eq!(t.to_iso(), "-0001-12-31T23:59:00Z");
    let t = UtcTime { year: 987, month: 6, day: 5, hour: 0, minute: 0, second: 9 };
    assert_eq!(t.to_iso(), "0987-06-05T00:00:09Z");
}
