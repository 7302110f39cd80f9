use sunspec_gateway::auth::error_handler::AuthError;
use sunspec_gateway::auth::token_extractor::{extract_credential, Credential};
use sunspec_gateway::modules::controls::{
    get_control_point_defs, get_control_points, parse_device_key,
};
use sunspec_gateway::modules::dashboard::{
    bucket_of, energy_role, field_of_lowered, find_live_value, flow_role, history_series,
    history_window, parse_period, store_live_value, update_device_field, DeviceField, DeviceType,
    EnergyRole, FlowRole, HistorySeries, HistoryWindow, LiveValue, Period,
};
use sunspec_gateway::modules::points::{
    iter_group, model_response, model_response_from_blocks, BlockPoint, Group, GroupPoint,
};
use sunspec_gateway::modules::users::{
    Authorizable, AuthorizableType, AuthorizationError, Point, User, RBAC,
};
use sunspec_gateway::payload::{state_unique_id, PayloadValueType};
use sunspec_gateway::text::trim_start_matches;

#[test]
fn a_bearer_header_carries_a_signed_token() {
    assert!(matches!(extract_credential(Some("Bearer abc.def")), Ok(Credential::Bearer(t)) if t == "abc.def"));
    assert!(matches!(extract_credential(Some("Bearer ")), Ok(Credential::Bearer(t)) if t.is_empty()));
    assert!(matches!(extract_credential(Some("Bearer Bearer x")), Ok(Credential::Bearer(t)) if t == "x"));
    assert!(matches!(extract_credential(Some("Bearer  x")), Ok(Credential::Bearer(t)) if t == " x"));
}

#[test]
fn an_api_key_must_not_be_empty() {
    assert!(matches!(extract_credential(Some("ApiKey k1")), Ok(Credential::ApiKey(k)) if k == "k1"));
    assert!(matches!(extract_credential(Some("ApiKey ApiKey k1")), Ok(Credential::ApiKey(k)) if k == "k1"));
    assert_eq!(extract_credential(Some("ApiKey ")).err(), Some(AuthError::InvalidToken));
    assert_eq!(extract_credential(Some("ApiKey ApiKey ")).err(), Some(AuthError::InvalidToken));
}

#[test]
fn other_headers_are_refused() {
    assert_eq!(extract_credential(None).err(), Some(AuthError::MissingToken));
    for h in ["", "Basic abc", "bearer abc", "Bearer", "ApiKey", "apikey k", " Bearer x"] {
        assert_eq!(extract_credential(Some(h)).err(), Some(AuthError::InvalidToken), "header {h:?}");
    }
}

#[test]
fn leading_repetitions_of_a_prefix_are_taken_off() {
    assert_eq!(trim_start_matches("aaab", "a"), "b");
    assert_eq!(trim_start_matches("ababab", "ab"), "");
    assert_eq!(trim_start_matches("abcab", "ab"), "cab");
    assert_eq!(trim_start_matches("abc", ""), "abc");
    assert_eq!(trim_start_matches("", "ab"), "");
    assert_eq!(trim_start_matches("xab", "ab"), "xab");
    for (s, p) in [("Bearer Bearer x", "Bearer "), ("ööx", "ö"), ("aa", "aaa")] {
        assert_eq!(trim_start_matches(s, p), s.trim_start_matches(p));
    }
}

fn target(id: i32) -> AuthorizableType {
    AuthorizableType::User(User { id, ..User::default() })
}

#[test]
fn listing_and_creating_users_is_open_to_everyone() {
    let me = User { id: 7, login: "me".into(), ..User::default() };
    assert_eq!(me.is_authorized::<User>(&target(0), &RBAC::Read), Ok(true));
    assert_eq!(me.is_authorized::<User>(&target(0), &RBAC::Write), Ok(true));
    assert_eq!(me.is_authorized::<User>(&target(0), &RBAC::Delete), Err(AuthorizationError::InvalidAssertion));
    assert_eq!(me.is_authorized::<User>(&target(0), &RBAC::Admin), Err(AuthorizationError::InvalidAssertion));
    for rbac in [RBAC::Read, RBAC::Write, RBAC::Delete, RBAC::Admin] {
        assert_eq!(me.is_authorized::<User>(&target(3), &rbac), Err(AuthorizationError::InvalidAssertion));
        assert_eq!(me.is_authorized::<Point>(&target(3), &rbac), Ok(true));
        assert_eq!(Point::check_authorization(&target(0), &me, &rbac), Ok(true));
    }
    assert_eq!(User::check_authorization(&target(0), &me, &RBAC::Read), Ok(true));
}

#[test]
fn points_feed_the_figures_of_a_device() {
    let cases = [
        ("w", DeviceField::Power), ("dcw", DeviceField::Power), ("power", DeviceField::Power),
        ("p", DeviceField::Power), ("dcv", DeviceField::Voltage), ("v", DeviceField::Voltage),
        ("phvpha", DeviceField::Voltage), ("phvphb", DeviceField::Voltage), ("vin", DeviceField::Voltage),
        ("dca", DeviceField::Current), ("a", DeviceField::Current), ("iin", DeviceField::Current),
        ("tmp", DeviceField::Temperature), ("tmpcab", DeviceField::Temperature),
        ("tmpsnk", DeviceField::Temperature), ("t", DeviceField::Temperature),
        ("wh", DeviceField::Energy), ("dcwh", DeviceField::Energy), ("e", DeviceField::Energy),
        ("whout", DeviceField::Energy), ("soc", DeviceField::StateOfCharge),
        ("soh", DeviceField::StateOfHealth), ("hz", DeviceField::Frequency),
        ("st", DeviceField::State), ("state", DeviceField::State), ("sysmd", DeviceField::OperatingMode),
        ("whin", DeviceField::Unused), ("", DeviceField::Unused), ("W", DeviceField::Unused),
    ];
    for (name, field) in cases {
        assert_eq!(field_of_lowered(name), field, "point {name:?}");
    }
    assert_eq!(update_device_field("W"), DeviceField::Power);
    assert_eq!(update_device_field("PhVphA"), DeviceField::Voltage);
    assert_eq!(update_device_field("SysMd"), DeviceField::OperatingMode);
    assert_eq!(update_device_field("Evt"), DeviceField::Unused);
}

#[test]
fn points_play_their_part_in_the_flow_of_power() {
    assert_eq!(flow_role(DeviceType::PVLink, "dcw"), FlowRole::Solar);
    assert_eq!(flow_role(DeviceType::Inverter, "dcw"), FlowRole::Unused);
    assert_eq!(flow_role(DeviceType::Battery, "w"), FlowRole::Battery);
    assert_eq!(flow_role(DeviceType::Inverter, "w"), FlowRole::Unused);
    assert_eq!(flow_role(DeviceType::Unknown, "px1"), FlowRole::Grid);
    assert_eq!(flow_role(DeviceType::Battery, "px2"), FlowRole::Grid);
    assert_eq!(flow_role(DeviceType::Unknown, "px3"), FlowRole::Unused);
    assert_eq!(energy_role(DeviceType::Inverter, 102, "wh"), EnergyRole::SolarYield);
    assert_eq!(energy_role(DeviceType::PVLink, 64251, "wh"), EnergyRole::Unused);
    assert_eq!(energy_role(DeviceType::Battery, 802, "whin"), EnergyRole::BatteryCharge);
    assert_eq!(energy_role(DeviceType::Battery, 802, "whout"), EnergyRole::BatteryDischarge);
    assert_eq!(energy_role(DeviceType::Unknown, 64204, "whin"), EnergyRole::GridExport);
    assert_eq!(energy_role(DeviceType::Unknown, 10, "whout"), EnergyRole::GridImport);
    assert_eq!(energy_role(DeviceType::Unknown, 11, "whout"), EnergyRole::Unused);
    assert_eq!(energy_role(DeviceType::Battery, 64204, "whin"), EnergyRole::BatteryCharge);
}

#[test]
fn stored_values_belong_to_the_lines_of_the_chart() {
    assert_eq!(history_series("sn1.102.w"), HistorySeries::Solar);
    assert_eq!(history_series("sn1.102.wh"), HistorySeries::Solar);
    assert_eq!(history_series("sn1.64251.dcw"), HistorySeries::Ignored);
    assert_eq!(history_series("sn1.802.w"), HistorySeries::Battery);
    assert_eq!(history_series("sn1.64204.px1"), HistorySeries::Grid);
    assert_eq!(history_series("sn1.64204.px2"), HistorySeries::Grid);
    assert_eq!(history_series("sn1.103.w"), HistorySeries::Ignored);
    assert_eq!(history_series("SN1.102.W"), HistorySeries::Ignored);
}

#[test]
fn periods_are_read_and_anything_else_means_today() {
    assert_eq!(parse_period("yesterday"), Period::Yesterday);
    assert_eq!(parse_period("7days"), Period::Week);
    assert_eq!(parse_period("7_days"), Period::Week);
    assert_eq!(parse_period("30days"), Period::Month);
    assert_eq!(parse_period("30_days"), Period::Month);
    assert_eq!(parse_period("12months"), Period::Year);
    assert_eq!(parse_period("12_months"), Period::Year);
    assert_eq!(parse_period("today"), Period::Today);
    assert_eq!(parse_period(""), Period::Today);
    assert_eq!(parse_period("Yesterday"), Period::Today);
}

#[test]
fn the_chart_shows_days_of_the_viewers_clock() {
    let now = 1_700_000_000; // 2023-11-14T22:13:20Z
    let midnight = 1_699_920_000; // 2023-11-14T00:00:00Z
    assert_eq!(
        history_window(Period::Today, now, 0),
        Some(HistoryWindow { start: midnight, end: now, interval_minutes: 5 })
    );
    assert_eq!(
        history_window(Period::Yesterday, now, 0),
        Some(HistoryWindow { start: midnight - 86_400, end: midnight, interval_minutes: 5 })
    );
    // Four hours west of Greenwich the day began at 04:00 universal time.
    assert_eq!(
        history_window(Period::Today, now, 240),
        Some(HistoryWindow { start: midnight + 4 * 3600, end: now, interval_minutes: 5 })
    );
    // Two hours east it is already the next day.
    assert_eq!(
        history_window(Period::Today, now, -120),
        Some(HistoryWindow { start: midnight + 22 * 3600, end: now, interval_minutes: 5 })
    );
    assert_eq!(
        history_window(Period::Yesterday, now, -120),
        Some(HistoryWindow { start: midnight - 2 * 3600, end: midnight + 22 * 3600, interval_minutes: 5 })
    );
    assert_eq!(
        history_window(Period::Week, now, 99),
        Some(HistoryWindow { start: now - 7 * 86_400, end: now, interval_minutes: 60 })
    );
    assert_eq!(
        history_window(Period::Month, now, 0),
        Some(HistoryWindow { start: now - 30 * 86_400, end: now, interval_minutes: 240 })
    );
    assert_eq!(
        history_window(Period::Year, now, 0),
        Some(HistoryWindow { start: now - 365 * 86_400, end: now, interval_minutes: 1440 })
    );
    assert_eq!(
        history_window(Period::Today, -1, 0),
        Some(HistoryWindow { start: -86_400, end: -1, interval_minutes: 5 })
    );
    assert_eq!(history_window(Period::Week, i64::MIN, 0), None);
    assert_eq!(history_window(Period::Today, i64::MIN, 0), None);
    assert!(history_window(Period::Today, i64::MAX, i32::MIN).is_some());
}

#[test]
fn stored_values_fall_into_buckets() {
    assert_eq!(bucket_of(1_700_000_000, 5), Some(1_699_999_800));
    assert_eq!(bucket_of(1_699_999_800, 5), Some(1_699_999_800));
    assert_eq!(bucket_of(1_700_000_000, 60), Some(1_699_999_200));
    assert_eq!(bucket_of(1_700_000_000, 1440), Some(1_699_920_000));
    assert_eq!(bucket_of(299, 5), Some(0));
    assert_eq!(bucket_of(-1, 5), Some(0));
    assert_eq!(bucket_of(-301, 5), Some(-300));
    assert_eq!(bucket_of(0, 5), None);
    assert_eq!(bucket_of(100, 0), None);
    assert_eq!(bucket_of(100, -5), None);
    assert_eq!(bucket_of(i64::MAX, i64::MAX), Some(0));
    assert_eq!(bucket_of(i64::MIN, 1), Some(i64::MIN + 8));
    for ts in [1i64, 59, 60, 12345, -12345, i64::MAX, i64::MIN + 1] {
        assert_eq!(bucket_of(ts, 5), Some((ts / 300) * 300));
    }
}

#[test]
fn the_key_of_a_device_names_address_and_sub_unit() {
    assert_eq!(parse_device_key("10.0.0.5:502/3"), Some(("10.0.0.5:502".to_string(), 3)));
    assert_eq!(parse_device_key("host/x"), Some(("host".to_string(), 1)));
    assert_eq!(parse_device_key("host/256"), Some(("host".to_string(), 1)));
    assert_eq!(parse_device_key("host/"), Some(("host".to_string(), 1)));
    assert_eq!(parse_device_key("/7"), Some(("".to_string(), 7)));
    assert_eq!(parse_device_key("host"), None);
    assert_eq!(parse_device_key("a/b/c"), None);
    assert_eq!(parse_device_key(""), None);
}

#[test]
fn the_identifier_of_a_state_is_built_from_its_parts() {
    assert_eq!(state_unique_id("SN1", "103", "Evt", "ALARM"), "SN1.103.Evt.ALARM");
    assert_eq!(state_unique_id("", "", "", ""), "...");
}

fn live(serial: &str, model_id: u16, point: &str, value: i64) -> LiveValue {
    LiveValue {
        serial_number: serial.to_string(),
        model_id,
        model_name: format!("model {model_id}"),
        point_name: point.to_string(),
        value: PayloadValueType::Int(value),
        last_updated: 0,
    }
}

#[test]
fn the_latest_value_of_a_point_replaces_the_one_before() {
    let mut values = vec![];
    store_live_value(&mut values, "SN1".into(), 802, "battery".into(), "SoC".into(), PayloadValueType::Int(50), 10);
    store_live_value(&mut values, "SN1".into(), 802, "battery".into(), "W".into(), PayloadValueType::Int(7), 11);
    store_live_value(&mut values, "SN2".into(), 802, "battery".into(), "SoC".into(), PayloadValueType::Int(60), 12);
    assert_eq!(values.len(), 3);
    store_live_value(&mut values, "SN1".into(), 802, "storage".into(), "SoC".into(), PayloadValueType::Int(51), 13);
    assert_eq!(values.len(), 3);
    assert!(matches!(values[0].value, PayloadValueType::Int(51)));
    assert_eq!(values[0].last_updated, 13);
    assert_eq!(values[0].model_name, "storage");
    assert!(matches!(values[1].value, PayloadValueType::Int(7)));
    assert!(matches!(values[2].value, PayloadValueType::Int(60)));
    assert_eq!(find_live_value(&values, "SN2", 802, "SoC"), Some(2));
    assert_eq!(find_live_value(&values, "SN2", 803, "SoC"), None);
    assert_eq!(find_live_value(&values, "SN2", 802, "soc"), None);
    assert_eq!(find_live_value(&vec![], "SN2", 802, "SoC"), None);
}

#[test]
fn control_points_are_listed_for_each_device_that_carries_their_model() {
    let defs = get_control_point_defs();
    let values = vec![
        live("B1", 802, "SoC", 50),
        live("INV", 64200, "SysMd", 2),
        live("B2", 802, "SetOp", 1),
        live("B1", 802, "SocRsvMax", 90),
        live("X", 103, "W", 5),
    ];
    let listed = get_control_points(&defs, &values).points;
    let seen: Vec<(u16, &str, &str, Option<i64>)> = listed
        .iter()
        .map(|s| {
            let v = match &s.current_value {
                Some(PayloadValueType::Int(i)) => Some(*i),
                _ => None,
            };
            (s.def.model_id, s.def.point_name.as_str(), s.serial_number.as_str(), v)
        })
        .collect();
    assert_eq!(
        seen,
        vec![
            (64200, "SysMd", "INV", Some(2)),
            (802, "SocRsvMax", "B1", Some(90)),
            (802, "SocRsvMax", "B2", None),
            (802, "SoCRsvMin", "B1", None),
            (802, "SoCRsvMin", "B2", None),
            (802, "SetOp", "B1", None),
            (802, "SetOp", "B2", Some(1)),
            (802, "SetInvState", "B1", None),
            (802, "SetInvState", "B2", None),
        ]
    );
    assert_eq!(listed[0].def.symbols.as_ref().unwrap().len(), 7);
    assert_eq!(listed[1].def.units.as_deref(), Some("%WHRtg"));
    assert!(get_control_points(&defs, &vec![]).points.is_empty());
    assert!(get_control_points(&vec![], &values).points.is_empty());
}

#[test]
fn the_points_of_nested_groups_are_listed_under_their_paths() {
    let point = |name: &str, desc: Option<&str>| GroupPoint { name: name.into(), desc: desc.map(String::from) };
    let group = Group {
        name: "inverter".into(),
        desc: Some("An inverter".into()),
        points: vec![point("ID", None), point("W", Some("Power"))],
        groups: vec![
            Group {
                name: "mppt".into(),
                desc: None,
                points: vec![point("DCW", Some("DC power"))],
                groups: vec![Group { name: "string".into(), desc: None, points: vec![point("A", None)], groups: vec![] }],
            },
            Group { name: "empty".into(), desc: None, points: vec![], groups: vec![] },
            Group { name: "grid".into(), desc: None, points: vec![point("Hz", None)], groups: vec![] },
        ],
    };
    let m = model_response(103, &group);
    assert_eq!((m.model, m.name.as_str(), m.description.as_str()), (103, "inverter", "An inverter"));
    let listed: Vec<(i32, &str, &str)> =
        m.points.iter().map(|p| (p.model, p.name.as_str(), p.description.as_str())).collect();
    assert_eq!(
        listed,
        vec![
            (103, ".inverter.ID", ""),
            (103, ".inverter.W", "Power"),
            (103, ".inverter.mppt.DCW", "DC power"),
            (103, ".inverter.mppt.string.A", ""),
            (103, ".inverter.grid.Hz", ""),
        ]
    );
    let mut catalog = vec![];
    iter_group(&group.groups[0], &mut catalog, Some("x.y"), 7);
    let names: Vec<&str> = catalog.iter().map(|p| p.name.as_str()).collect();
    assert_eq!(names, vec!["x.y.mppt.DCW", "x.y.mppt.string.A"]);
    let blocks = vec![
        vec![BlockPoint { id: "SN".into(), description: Some("Serial".into()) }],
        vec![],
        vec![BlockPoint { id: "A".into(), description: None }, BlockPoint { id: "B".into(), description: None }],
    ];
    let m = model_response_from_blocks(1, "common", &blocks);
    assert_eq!((m.model, m.name.as_str(), m.description.as_str()), (1, "common", ""));
    let listed: Vec<(&str, &str)> = m.points.iter().map(|p| (p.name.as_str(), p.description.as_str())).collect();
    assert_eq!(listed, vec![("SN", "Serial"), ("A", ""), ("B", "")]);
}
