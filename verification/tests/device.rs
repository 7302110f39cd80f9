use sunspec_gateway::auth::error_handler::AuthError;
use sunspec_gateway::date_serializer::time_to_json;
use sunspec_gateway::gateway_error::GatewayError;
use sunspec_gateway::modules::controls::{
    get_control_point_defs, validate_write, WriteRejection, WriteRequest, WriteResponse,
};
use sunspec_gateway::modules::dashboard::{
    classify_device_type, classify_lowered, live_value_key, DeviceType,
};
use sunspec_gateway::pwrcell_unit::{PWRCellUnitClass, ParseError};
use sunspec_gateway::scaled::Scaled;
use sunspec_gateway::sunspec_unit::{
    IdentityReads, PointData, PointReading, SunSpecPointError, SunSpecUnit, ValueType,
};

fn text(s: &str) -> Result<PointReading, SunSpecPointError> {
    Ok(PointReading {
        data: PointData { units: None, literal: None },
        value: Some(ValueType::String(s.to_string())),
    })
}

fn reads() -> IdentityReads {
    IdentityReads {
        serial_number: text("SN1"),
        version: text("1.2.3"),
        manufacturer: text("Acme"),
        model: text("X1"),
    }
}

fn failure(r: Result<SunSpecUnit, GatewayError>) -> String {
    match r {
        Err(GatewayError::Error(m)) => m,
        other => panic!("unexpected result {other:?}"),
    }
}

#[test]
fn a_device_is_set_up_from_its_identity() {
    let u = SunSpecUnit::new("10.0.0.5:502".into(), "3".into(), vec![1, 103], reads()).unwrap();
    assert_eq!(u.addr, "10.0.0.5:502");
    assert_eq!(u.slave_id, 3);
    assert_eq!(u.models, vec![1, 103]);
    assert_eq!(u.serial_number, "SN1");
    assert_eq!(u.device_info.manufacturer, "Acme");
    assert_eq!(u.device_info.model, "X1");
    assert_eq!(u.device_info.sw_version, "1.2.3");
    assert_eq!(u.device_info.name, "SN1: X1");
    assert_eq!(u.device_info.identifiers, vec!["SN1".to_string()]);
}

#[test]
fn the_firmware_version_may_be_missing() {
    for version in [
        Err(SunSpecPointError::DoesNotExist("Vr".into())),
        Ok(PointReading { data: PointData { units: None, literal: None }, value: None }),
        Ok(PointReading { data: PointData { units: None, literal: None }, value: Some(ValueType::Integer(3)) }),
    ] {
        let r = IdentityReads { version, ..reads() };
        let u = SunSpecUnit::new("a".into(), "1".into(), vec![1], r).unwrap();
        assert_eq!(u.device_info.sw_version, "");
    }
}

#[test]
fn a_device_without_identity_is_refused() {
    assert_eq!(failure(SunSpecUnit::new("a".into(), "x3".into(), vec![1], reads())), "Couldn't parse slave_id x3");
    assert_eq!(failure(SunSpecUnit::new("a".into(), "256".into(), vec![1], reads())), "Couldn't parse slave_id 256");
    assert_eq!(
        failure(SunSpecUnit::new("a".into(), "3".into(), vec![103, 802], reads())),
        "Couldn't get model definition for common"
    );
    let r = IdentityReads { serial_number: Err(SunSpecPointError::CommError("down".into())), ..reads() };
    assert_eq!(failure(SunSpecUnit::new("a".into(), "3".into(), vec![1], r)), "Unrecoverable error: down");
    let r = IdentityReads {
        serial_number: Ok(PointReading {
            data: PointData { units: None, literal: None },
            value: Some(ValueType::Float(Scaled { micros: 1 })),
        }),
        ..reads()
    };
    assert_eq!(
        failure(SunSpecUnit::new("a".into(), "3".into(), vec![1], r)),
        "Received a point that wasn't a string for serial number."
    );
    let r = IdentityReads { manufacturer: Err(SunSpecPointError::GeneralError("oops".into())), ..reads() };
    assert_eq!(
        failure(SunSpecUnit::new("a".into(), "3".into(), vec![1], r)),
        "fatal error, aborting: General Error: oops"
    );
    let r = IdentityReads {
        manufacturer: Ok(PointReading { data: PointData { units: None, literal: None }, value: None }),
        ..reads()
    };
    assert_eq!(
        failure(SunSpecUnit::new("a".into(), "3".into(), vec![1], r)),
        "Received a point that wasn't a string for manufacturer."
    );
    let r = IdentityReads { model: Err(SunSpecPointError::UndefinedError), ..reads() };
    assert_eq!(failure(SunSpecUnit::new("a".into(), "3".into(), vec![1], r)), "Undefined error");
    let r = IdentityReads { model: text("X1"), serial_number: Err(SunSpecPointError::DoesNotExist("SN".into())), ..reads() };
    assert_eq!(failure(SunSpecUnit::new("a".into(), "3".into(), vec![1], r)), "point does not exist: SN");
    let r = IdentityReads {
        model: Ok(PointReading { data: PointData { units: None, literal: None }, value: Some(ValueType::Boolean(true)) }),
        ..reads()
    };
    assert_eq!(
        failure(SunSpecUnit::new("a".into(), "3".into(), vec![1], r)),
        "Received a point that wasn't a string for physical device model name."
    );
    assert_eq!(SunSpecPointError::PointNotImplemented("p".into()).message(), "point not implemented: p");
}

#[test]
fn unit_classes_are_read_without_regard_to_case() {
    assert_eq!(PWRCellUnitClass::from_str("REbus Beacon"), Ok(PWRCellUnitClass::Beacon));
    assert_eq!(PWRCellUnitClass::from_str("rebus beacon"), Ok(PWRCellUnitClass::Beacon));
    assert_eq!(PWRCellUnitClass::from_str("icm"), Ok(PWRCellUnitClass::ICM));
    assert_eq!(PWRCellUnitClass::from_str("pwrcell xvt076a03 inverter"), Ok(PWRCellUnitClass::Inverter));
    assert_eq!(PWRCellUnitClass::from_str("PWRCELL BATTERY"), Ok(PWRCellUnitClass::Battery));
    assert_eq!(PWRCellUnitClass::try_from("pv link"), Ok(PWRCellUnitClass::PVLink));
    assert_eq!(PWRCellUnitClass::from_str("PV  Link"), Err(ParseError::VariantNotFound));
    assert_eq!(PWRCellUnitClass::from_str("None"), Err(ParseError::VariantNotFound));
    assert_eq!(PWRCellUnitClass::from_str(""), Err(ParseError::VariantNotFound));
    for c in [
        PWRCellUnitClass::Beacon,
        PWRCellUnitClass::ICM,
        PWRCellUnitClass::Inverter,
        PWRCellUnitClass::Battery,
        PWRCellUnitClass::PVLink,
    ] {
        assert_eq!(PWRCellUnitClass::from_str(c.name()), Ok(c));
    }
    assert_eq!(PWRCellUnitClass::Unclassified.name(), "None");
}

#[test]
fn devices_are_sorted_by_their_model() {
    for id in [101u16, 102, 103, 111, 112, 113, 64208] {
        assert_eq!(classify_device_type(id, "inverter"), DeviceType::Inverter);
    }
    for id in [802u16, 803, 804, 64209] {
        assert_eq!(classify_device_type(id, "battery"), DeviceType::Battery);
    }
    for id in [64251u16, 401, 402, 403, 404] {
        assert_eq!(classify_device_type(id, "pv"), DeviceType::PVLink);
    }
    for id in [0u16, 1, 100, 104, 110, 114, 400, 405, 801, 805, 64200, 64204, 64207, 64210, u16::MAX] {
        assert_eq!(classify_device_type(id, "x"), DeviceType::Unknown);
    }
    assert_eq!(DeviceType::default(), DeviceType::Unknown);
}

#[test]
fn the_beacon_is_no_device_of_the_dashboard() {
    assert_eq!(classify_device_type(102, "REBUS status"), DeviceType::Unknown);
    assert_eq!(classify_device_type(102, "REbus Beacon"), DeviceType::Unknown);
    assert_eq!(classify_device_type(802, "my Beacon"), DeviceType::Unknown);
    assert_eq!(classify_device_type(102, "inverter_split_phase"), DeviceType::Inverter);
    assert_eq!(classify_lowered(102, "rebus"), DeviceType::Unknown);
    assert_eq!(classify_lowered(102, "REBUS"), DeviceType::Inverter);
    assert_eq!(live_value_key("SN1", 64200, "SysMd"), "SN1.64200.SysMd");
    assert_eq!(live_value_key("", 0, ""), ".0.");
}

#[test]
fn the_control_points_are_the_six_that_may_be_set() {
    let defs = get_control_point_defs();
    let names: Vec<(u16, &str)> = defs.iter().map(|d| (d.model_id, d.point_name.as_str())).collect();
    assert_eq!(
        names,
        vec![(64200, "SysMd"), (64251, "Ena"), (802, "SocRsvMax"), (802, "SoCRsvMin"), (802, "SetOp"), (802, "SetInvState")]
    );
    let sysmd = &defs[0];
    assert_eq!(sysmd.label, "System Operating Mode");
    assert_eq!(sysmd.description, "REbus System operational mode");
    assert_eq!(sysmd.data_type, "enum16");
    assert_eq!(sysmd.units, None);
    let modes: Vec<(&str, i64)> = sysmd.symbols.as_ref().unwrap().iter().map(|s| (s.name.as_str(), s.value)).collect();
    assert_eq!(
        modes,
        vec![
            ("SAFETY_SHUTDOWN", 0), ("GRID_CONNECT", 1), ("SELF_SUPPLY", 2), ("CLEAN_BACKUP", 3),
            ("PRIORITY_BACKUP", 4), ("ARBITRAGE", 5), ("FULL_EXPORT", 6),
        ]
    );
    assert_eq!(defs[2].data_type, "uint16");
    assert_eq!(defs[2].units.as_deref(), Some("%WHRtg"));
    assert!(defs[2].symbols.is_none());
    assert_eq!(defs[3].label, "Min Reserve %");
    let op: Vec<(&str, i64)> = defs[4].symbols.as_ref().unwrap().iter().map(|s| (s.name.as_str(), s.value)).collect();
    assert_eq!(op, vec![("CONNECT", 1), ("DISCONNECT", 2)]);
    assert_eq!(defs[5].symbols.as_ref().unwrap().len(), 3);
    assert_eq!(defs[1].symbols.as_ref().unwrap()[1].name, "ENABLE");
}

fn request(model_id: u16, point: &str, value: &str) -> WriteRequest {
    WriteRequest { serial_number: "SN1".into(), model_id, point_name: point.into(), value: value.into() }
}

#[test]
fn a_request_to_set_a_point_is_validated() {
    let defs = get_control_point_defs();
    assert_eq!(validate_write(&defs, &request(64200, "SysMd", "2")), Ok(2));
    assert_eq!(validate_write(&defs, &request(64200, "SysMd", "7")), Err(WriteRejection::InvalidSymbol));
    assert_eq!(validate_write(&defs, &request(64200, "SysMd", "-1")), Err(WriteRejection::InvalidSymbol));
    assert_eq!(validate_write(&defs, &request(64200, "SysMd", "two")), Err(WriteRejection::NotAnInteger));
    assert_eq!(validate_write(&defs, &request(64200, "sysmd", "2")), Err(WriteRejection::NotControllable));
    assert_eq!(validate_write(&defs, &request(802, "SysMd", "2")), Err(WriteRejection::NotControllable));
    assert_eq!(validate_write(&defs, &request(802, "W", "two")), Err(WriteRejection::NotControllable));
    assert_eq!(validate_write(&defs, &request(802, "SocRsvMax", "0")), Ok(0));
    assert_eq!(validate_write(&defs, &request(802, "SocRsvMax", "65535")), Ok(65535));
    assert_eq!(validate_write(&defs, &request(802, "SocRsvMax", "65536")), Err(WriteRejection::OutOfRange));
    assert_eq!(validate_write(&defs, &request(802, "SocRsvMax", "-1")), Err(WriteRejection::OutOfRange));
    assert_eq!(validate_write(&defs, &request(802, "SetOp", "0")), Err(WriteRejection::InvalidSymbol));
    assert_eq!(validate_write(&defs, &request(802, "SetOp", "2")), Ok(2));
    assert_eq!(validate_write(&vec![], &request(802, "SetOp", "2")), Err(WriteRejection::NotControllable));
    let ok = WriteResponse::success("SetOp", -2);
    assert!(ok.success);
    assert_eq!(ok.message, "Successfully set SetOp to -2");
    let no = WriteResponse::not_controllable(802, "W");
    assert!(!no.success);
    assert_eq!(no.message, "Point 802.W is not a controllable point");
}

#[test]
fn moments_are_written_in_universal_time() {
    assert_eq!(time_to_json(0).as_deref(), Some("1970-01-01T00:00:00Z"));
    assert_eq!(time_to_json(1_700_000_000).as_deref(), Some("2023-11-14T22:13:20Z"));
    assert_eq!(time_to_json(-1).as_deref(), Some("1969-12-31T23:59:59Z"));
    assert_eq!(time_to_json(i64::MAX), None);
    assert_eq!(time_to_json(i64::MIN), None);
}

#[test]
fn refusals_are_answered_with_their_status() {
    assert_eq!(AuthError::InvalidToken.into_response(), (401, "Invalid token"));
    assert_eq!(AuthError::MissingToken.into_response(), (401, "Missing token"));
    assert_eq!(AuthError::ExpiredToken.into_response(), (401, "Token has expired"));
    assert_eq!(AuthError::InvalidTokenFormat.into_response(), (401, "Invalid token format"));
    assert_eq!(AuthError::JwksError.into_response(), (500, "JWKS error"));
    assert_eq!(AuthError::InvalidState.into_response(), (500, "Invalid state"));
    assert_eq!(AuthError::NotImplemented.into_response(), (500, "Auth not implemented"));
}
