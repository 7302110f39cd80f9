use sunspec_gateway::config_structs::{
    InputType, ModelCatalog, NumberInput, PointConfig, Switchable,
};
use sunspec_gateway::consts::LOWER_LIMIT_INTERVAL;
use sunspec_gateway::monitored_point::{Access, MonitoredPoint, PointError, PointIdentifier};
use sunspec_gateway::scaled::Scaled;
use sunspec_gateway::sunspec_poll::{build_schedule, schedule_from_catalog};

fn config(point: &str, interval: u64) -> PointConfig {
    PointConfig { point: Some(point.to_string()), interval, ..PointConfig::default() }
}

#[test]
fn an_interval_below_the_floor_is_raised_to_the_floor() {
    for configured in 0..LOWER_LIMIT_INTERVAL {
        let p = MonitoredPoint::new("103".to_string(), config("W", configured), None).unwrap();
        assert_eq!(p.interval, LOWER_LIMIT_INTERVAL);
    }
}

#[test]
fn an_interval_at_or_above_the_floor_is_kept() {
    for configured in [10u64, 11, 60, 3600, u64::MAX] {
        let p = MonitoredPoint::new("103".to_string(), config("W", configured), None).unwrap();
        assert_eq!(p.interval, configured);
    }
}

#[test]
fn a_point_without_name_and_reference_is_refused() {
    let pc = PointConfig { interval: 30, ..PointConfig::default() };
    match MonitoredPoint::new("802".to_string(), pc, None) {
        Err(PointError::MissingIdentifier { model }) => assert_eq!(model, "802"),
        Ok(_) => panic!("a point without identifier was accepted"),
    }
}

#[test]
fn the_catalog_reference_takes_precedence_over_the_name() {
    let pc = PointConfig {
        point: Some("W".to_string()),
        catalog_ref: Some(".inverter.W".to_string()),
        interval: 30,
        ..PointConfig::default()
    };
    assert_eq!(pc.name(), ".inverter.W");
    let p = MonitoredPoint::new("103".to_string(), pc, None).unwrap();
    assert!(matches!(&p.name, PointIdentifier::Catalog(r) if r == ".inverter.W"));
    assert_eq!(p.name.as_str(), ".inverter.W");
    let q = MonitoredPoint::new("103".to_string(), config("W", 30), None).unwrap();
    assert!(matches!(&q.name, PointIdentifier::Point(n) if n == "W"));
    assert!(!p.name.matches(&q.name));
    assert!(q.name.matches(&PointIdentifier::Point("W".to_string())));
    assert!(!q.name.matches(&PointIdentifier::Catalog("W".to_string())));
    assert!(q.name.duplicate().matches(&q.name));
    assert_eq!(PointConfig::default().name(), "");
}

#[test]
fn the_settings_of_a_point_are_taken_over() {
    let pc = PointConfig {
        point: Some("SocRsvMax".to_string()),
        catalog_ref: None,
        interval: 45,
        device_class: Some("battery".to_string()),
        display_name: Some("Reserve".to_string()),
        state_class: Some("measurement".to_string()),
        uom: Some("%".to_string()),
        precision: Some(1),
        readwrite: Some(true),
        homeassistant: Some(true),
        scale_factor: Some(-2),
        inputs: Some(InputType::Number(NumberInput { min: 0, max: 100, step: Some(1), mode: None })),
        input_only: Some(false),
        value_min: Some(Scaled { micros: 0 }),
        value_max: Some(Scaled { micros: 100_000_000 }),
        check_deviations: Some(5),
    };
    let p = MonitoredPoint::new("802".to_string(), pc, None).unwrap();
    assert_eq!(p.model, "802");
    assert_eq!(p.interval, 45);
    assert_eq!(p.device_class.as_deref(), Some("battery"));
    assert_eq!(p.display_name.as_deref(), Some("Reserve"));
    assert_eq!(p.state_class.as_deref(), Some("measurement"));
    assert_eq!(p.uom.as_deref(), Some("%"));
    assert_eq!(p.precision, Some(1));
    assert_eq!(p.write_mode, Access::ReadWrite);
    assert!(p.homeassistant_discovery);
    assert_eq!(p.scale_factor, Some(-2));
    assert!(matches!(p.input_type, Some(InputType::Number(NumberInput { min: 0, max: 100, .. }))));
    assert_eq!(p.input_only, Some(false));
    assert_eq!(p.value_min, Some(Scaled { micros: 0 }));
    assert_eq!(p.value_max, Some(Scaled { micros: 100_000_000 }));
    assert_eq!(p.check_deviations, Some(5));
    assert_eq!(p.this_address, None);
}

#[test]
fn write_mode_follows_the_configuration() {
    let mut pc = config("Ena", 30);
    assert_eq!(MonitoredPoint::new("1".into(), pc.clone(), None).unwrap().write_mode, Access::ReadOnly);
    pc.readwrite = Some(false);
    assert_eq!(MonitoredPoint::new("1".into(), pc.clone(), None).unwrap().write_mode, Access::ReadOnly);
    pc.readwrite = Some(true);
    pc.inputs = Some(InputType::Switch(Switchable { on: "1".into(), off: "0".into() }));
    assert_eq!(MonitoredPoint::new("1".into(), pc, None).unwrap().write_mode, Access::ReadWrite);
}

#[test]
fn discovery_is_off_where_the_gateway_switches_it_off() {
    let cases = [
        (None, None, true),
        (None, Some(true), true),
        (None, Some(false), false),
        (Some(true), None, true),
        (Some(true), Some(true), true),
        (Some(true), Some(false), false),
        (Some(false), None, false),
        (Some(false), Some(true), false),
        (Some(false), Some(false), false),
    ];
    for (gateway, point, expected) in cases {
        let mut pc = config("W", 30);
        pc.homeassistant = point;
        let p = MonitoredPoint::new("103".into(), pc, gateway).unwrap();
        assert_eq!(p.homeassistant_discovery, expected, "gateway {gateway:?}, point {point:?}");
    }
}

#[test]
fn a_schedule_holds_the_points_that_can_be_addressed_in_their_order() {
    let configs = vec![
        config("W", 5),
        PointConfig { interval: 30, ..PointConfig::default() },
        config("Hz", 60),
        PointConfig { catalog_ref: Some(".x.St".into()), interval: 1, ..PointConfig::default() },
    ];
    let points = build_schedule(&"103".to_string(), configs, None);
    let names: Vec<&str> = points.iter().map(|p| p.name.as_str()).collect();
    assert_eq!(names, vec!["W", "Hz", ".x.St"]);
    let intervals: Vec<u64> = points.iter().map(|p| p.interval).collect();
    assert_eq!(intervals, vec![10, 60, 10]);
    assert!(points.iter().all(|p| p.model == "103"));
    assert!(build_schedule(&"1".to_string(), vec![], None).is_empty());
}

#[test]
fn a_catalog_gives_the_points_of_its_models_one_after_the_other() {
    let catalog = vec![
        ModelCatalog { model: "103".into(), points: vec![config("W", 30), config("Hz", 5)] },
        ModelCatalog { model: "1".into(), points: vec![] },
        ModelCatalog {
            model: "802".into(),
            points: vec![PointConfig::default(), config("SoC", 60)],
        },
    ];
    let points = schedule_from_catalog(catalog, Some(false));
    let seen: Vec<(&str, &str, u64)> =
        points.iter().map(|p| (p.model.as_str(), p.name.as_str(), p.interval)).collect();
    assert_eq!(seen, vec![("103", "W", 30), ("103", "Hz", 10), ("802", "SoC", 60)]);
    assert!(points.iter().all(|p| !p.homeassistant_discovery));
    assert!(schedule_from_catalog(vec![], None).is_empty());
}
