//! What the gateway holds of one device: where it answers, how it identifies
//! itself, and what a read of one of its points brings back.

use vstd::prelude::*;
use vstd::string::*;
use crate::consts::COMMON_MODEL_ID;
use crate::gateway_error::GatewayError;
use crate::payload::DeviceInfo;
use crate::scaled::Scaled;
use crate::text::{parse_u8, texts, u8_of};

verus! {

/// The value of a point as read from a device.
#[derive(Clone, Debug)]
pub enum ValueType {
    String(String),
    Integer(i64),
    /// A quantity with decimal places.
    Float(Scaled),
    Boolean(bool),
    /// The states of an enumerated point that are set.
    Array(Vec<String>),
    Pad,
}

/// What a model says of a point in words.
#[derive(Clone, Debug)]
pub struct PointLiteral {
    pub label: Option<String>,
    pub description: Option<String>,
    pub notes: Option<String>,
}

/// What a model says of a point.
#[derive(Clone, Debug)]
pub struct PointData {
    /// The unit of measure that the model gives the point.
    pub units: Option<String>,
    pub literal: Option<PointLiteral>,
}

/// One physical device.
#[derive(Clone, Debug)]
pub struct SunSpecUnit {
    /// Network address.
    pub addr: String,
    /// Sub-unit on that address.
    pub slave_id: u8,
    /// The models that the device carries.
    pub models: Vec<u16>,
    pub serial_number: String,
    pub device_info: DeviceInfo,
}

/// What a successful read of a point brings back.
#[derive(Clone, Debug)]
pub struct PointReading {
    /// What the model says of the point.
    pub data: PointData,
    /// The value, where the device reported one.
    pub value: Option<ValueType>,
}

/// Why a read of a point failed.
#[derive(Clone, Debug)]
pub enum SunSpecPointError {
    /// The device no longer answers.
    CommError(String),
    GeneralError(String),
    /// The device has no such point.
    DoesNotExist(String),
    PointNotImplemented(String),
    UndefinedError,
}

/// The text of a [`SunSpecPointError`].
pub open spec fn point_error_text(e: SunSpecPointError) -> Seq<char> {
    match e {
        SunSpecPointError::CommError(s) => "Unrecoverable error: "@ + s@,
        SunSpecPointError::GeneralError(s) => "General Error: "@ + s@,
        SunSpecPointError::DoesNotExist(s) => "point does not exist: "@ + s@,
        SunSpecPointError::PointNotImplemented(s) => "point not implemented: "@ + s@,
        SunSpecPointError::UndefinedError => "Undefined error"@,
    }
}

impl SunSpecPointError {
    /// The error in words.
    pub fn message(&self) -> (r: String)
        ensures
            r@ == point_error_text(*self),
    {
        match self {
            SunSpecPointError::CommError(s) => {
                let mut r = String::from_str("Unrecoverable error: ");
                r.append(s.as_str());
                r
            },
            SunSpecPointError::GeneralError(s) => {
                let mut r = String::from_str("General Error: ");
                r.append(s.as_str());
                r
            },
            SunSpecPointError::DoesNotExist(s) => {
                let mut r = String::from_str("point does not exist: ");
                r.append(s.as_str());
                r
            },
            SunSpecPointError::PointNotImplemented(s) => {
                let mut r = String::from_str("point not implemented: ");
                r.append(s.as_str());
                r
            },
            SunSpecPointError::UndefinedError => String::from_str("Undefined error"),
        }
    }
}

/// Whether the list of models holds `id`.
pub fn holds_model(models: &Vec<u16>, id: u16) -> (r: bool)
    ensures
        r == models@.contains(id),
{
    let n: usize = models.len();
    let mut i: usize = 0;
    while i < n
        invariant
            n == models@.len(),
            i <= n,
            forall|j: int| 0 <= j < i ==> models@[j] != id,
        decreases n - i,
    {
        if models[i] == id {
            return true;
        }
        i = i + 1;
    }
    false
}

/// What the reads of a device's identity points brought back.
#[derive(Debug)]
pub struct IdentityReads {
    /// The point that carries the serial number.
    pub serial_number: Result<PointReading, SunSpecPointError>,
    /// The point that carries the firmware version.
    pub version: Result<PointReading, SunSpecPointError>,
    /// The point that carries the manufacturer.
    pub manufacturer: Result<PointReading, SunSpecPointError>,
    /// The point that carries the name of the physical model.
    pub model: Result<PointReading, SunSpecPointError>,
}

/// The text that an identity point must carry.
pub enum IdentityText {
    /// The read brought a text.
    Text(Seq<char>),
    /// The read brought something else, or nothing.
    NotText,
    /// The read failed.
    Failed(SunSpecPointError),
}

/// What the read of an identity point says.
pub open spec fn identity_text(read: Result<PointReading, SunSpecPointError>) -> IdentityText {
    match read {
        Ok(reading) => match reading.value {
            Some(ValueType::String(s)) => IdentityText::Text(s@),
            _ => IdentityText::NotText,
        },
        Err(e) => IdentityText::Failed(e),
    }
}

/// The firmware version that a device reports, or no text where it reports
/// none.
pub open spec fn version_text(read: Result<PointReading, SunSpecPointError>) -> Seq<char> {
    match identity_text(read) {
        IdentityText::Text(s) => s,
        _ => Seq::empty(),
    }
}

/// `{serial}: {model}`: the name under which a device is shown.
pub open spec fn device_name_text(sn: Seq<char>, model: Seq<char>) -> Seq<char> {
    sn + ": "@ + model
}

/// Why a device cannot be set up from what its identification brought, in
/// words; `None` where it can. The checks are made in this order: the
/// sub-unit, the identity model, the serial number, the manufacturer, the
/// physical model.
pub open spec fn identity_failure(slave_id: Seq<char>, models: Seq<u16>, reads: IdentityReads) -> Option<
    Seq<char>,
> {
    if u8_of(slave_id) is None {
        Some("Couldn't parse slave_id "@ + slave_id)
    } else if !models.contains(COMMON_MODEL_ID) {
        Some("Couldn't get model definition for common"@)
    } else {
        match identity_text(reads.serial_number) {
            IdentityText::Failed(e) => Some(point_error_text(e)),
            IdentityText::NotText => Some(
                "Received a point that wasn't a string for serial number."@,
            ),
            IdentityText::Text(_) => match identity_text(reads.manufacturer) {
                IdentityText::Failed(e) => Some("fatal error, aborting: "@ + point_error_text(e)),
                IdentityText::NotText => Some(
                    "Received a point that wasn't a string for manufacturer."@,
                ),
                IdentityText::Text(_) => match identity_text(reads.model) {
                    IdentityText::Failed(e) => Some(point_error_text(e)),
                    IdentityText::NotText => Some(
                        "Received a point that wasn't a string for physical device model name."@,
                    ),
                    IdentityText::Text(_) => None,
                },
            },
        }
    }
}

/// The text of an identity point, or the report of why it has none.
fn text_of(read: &Result<PointReading, SunSpecPointError>, what: &str, prefix: &str) -> (r: Result<
    String,
    GatewayError,
>)
    ensures
        match identity_text(*read) {
            IdentityText::Text(s) => r matches Ok(t) && t@ == s,
            IdentityText::NotText => r matches Err(GatewayError::Error(m)) && m@ == what@,
            IdentityText::Failed(e) => r matches Err(GatewayError::Error(m)) && m@ == prefix@
                + point_error_text(e),
        },
{
    match read {
        Ok(reading) => match &reading.value {
            Some(ValueType::String(s)) => Ok(s.clone()),
            _ => Err(GatewayError::Error(String::from_str(what))),
        },
        Err(e) => {
            let mut m = String::from_str(prefix);
            m.append(e.message().as_str());
            Err(GatewayError::Error(m))
        },
    }
}

impl SunSpecUnit {
    /// Sets up a device from what its identification brought.
    ///
    /// `slave_id` is the sub-unit as configured, `models` the models found
    /// on the device, `reads` the outcome of reading its identity points.
    /// The device is set up where the sub-unit is a number of 8 bits, the
    /// device carries the identity model, and serial number, manufacturer
    /// and physical model each came back as a text. The firmware version is
    /// taken where it came back as a text and left empty where not.
    pub fn new(addr: String, slave_id: String, models: Vec<u16>, reads: IdentityReads) -> (r: Result<
        SunSpecUnit,
        GatewayError,
    >)
        ensures
            match identity_failure(slave_id@, models@, reads) {
                Some(why) => r matches Err(GatewayError::Error(m)) && m@ == why,
                None => {
                    &&& r matches Ok(unit)
                    &&& unit.addr == addr
                    &&& Some(unit.slave_id) == u8_of(slave_id@)
                    &&& unit.models == models
                    &&& identity_text(reads.serial_number) == IdentityText::Text(
                        unit.serial_number@,
                    )
                    &&& identity_text(reads.manufacturer) == IdentityText::Text(
                        unit.device_info.manufacturer@,
                    )
                    &&& identity_text(reads.model) == IdentityText::Text(unit.device_info.model@)
                    &&& unit.device_info.sw_version@ == version_text(reads.version)
                    &&& unit.device_info.name@ == device_name_text(
                        unit.serial_number@,
                        unit.device_info.model@,
                    )
                    &&& texts(unit.device_info.identifiers@) == seq![unit.serial_number@]
                },
            },
    {
        let sid: u8 = match parse_u8(slave_id.as_str()) {
            Some(id) => id,
            None => {
                let mut m = String::from_str("Couldn't parse slave_id ");
                m.append(slave_id.as_str());
                return Err(GatewayError::Error(m));
            },
        };
        if !holds_model(&models, COMMON_MODEL_ID) {
            return Err(
                GatewayError::Error(String::from_str("Couldn't get model definition for common")),
            );
        }
        proof {
            reveal_strlit("");
        }
        let serial_number = match text_of(
            &reads.serial_number,
            "Received a point that wasn't a string for serial number.",
            "",
        ) {
            Ok(s) => s,
            Err(e) => {
                proof {
                    if let IdentityText::Failed(x) = identity_text(reads.serial_number) {
                        assert(""@ + point_error_text(x) =~= point_error_text(x));
                    }
                }
                return Err(e);
            },
        };
        let sw_version = match text_of(&reads.version, "", "") {
            Ok(s) => s,
            Err(_) => String::new(),
        };
        let manufacturer = match text_of(
            &reads.manufacturer,
            "Received a point that wasn't a string for manufacturer.",
            "fatal error, aborting: ",
        ) {
            Ok(s) => s,
            Err(e) => {
                return Err(e);
            },
        };
        let physical_model = match text_of(
            &reads.model,
            "Received a point that wasn't a string for physical device model name.",
            "",
        ) {
            Ok(s) => s,
            Err(e) => {
                proof {
                    if let IdentityText::Failed(x) = identity_text(reads.model) {
                        assert(""@ + point_error_text(x) =~= point_error_text(x));
                    }
                }
                return Err(e);
            },
        };
        let mut name = serial_number.clone();
        name.append(": ");
        name.append(physical_model.as_str());
        let mut identifiers: Vec<String> = Vec::new();
        identifiers.push(serial_number.clone());
        assert(texts(identifiers@) =~= seq![serial_number@]);
        let device_info = DeviceInfo {
            identifiers,
            manufacturer,
            name,
            model: physical_model,
            sw_version,
        };
        Ok(SunSpecUnit { addr, slave_id: sid, models, serial_number, device_info })
    }
}

} // verus!
