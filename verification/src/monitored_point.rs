//! A watched point of one device model, as the worker schedules it.

use vstd::prelude::*;
use crate::config_structs::{InputType, PointConfig};
use crate::consts::LOWER_LIMIT_INTERVAL;
use crate::scaled::Scaled;

verus! {

/// Whether a point may be written.
#[derive(Clone, Copy, Debug, PartialEq, Eq, Structural)]
pub enum Access {
    ReadOnly,
    ReadWrite,
}

/// How a point is addressed on its model.
#[derive(Clone, Debug)]
pub enum PointIdentifier {
    /// By its reference in the catalog.
    Catalog(String),
    /// By its name.
    Point(String),
}

impl PointIdentifier {
    /// The reference or name itself.
    pub open spec fn text(&self) -> Seq<char> {
        match self {
            PointIdentifier::Catalog(s) => s@,
            PointIdentifier::Point(s) => s@,
        }
    }

    /// Whether two identifiers are of the same kind and hold the same text.
    pub open spec fn same(&self, other: &PointIdentifier) -> bool {
        match (self, other) {
            (PointIdentifier::Catalog(a), PointIdentifier::Catalog(b)) => a@ == b@,
            (PointIdentifier::Point(a), PointIdentifier::Point(b)) => a@ == b@,
            _ => false,
        }
    }

    /// The reference or name, as the point appears in topics and identifiers.
    pub fn as_str(&self) -> (r: &str)
        ensures
            r@ == self.text(),
    {
        match self {
            PointIdentifier::Catalog(s) => s.as_str(),
            PointIdentifier::Point(s) => s.as_str(),
        }
    }

    /// Compares two identifiers.
    pub fn matches(&self, other: &PointIdentifier) -> (r: bool)
        ensures
            r == self.same(other),
    {
        match (self, other) {
            (PointIdentifier::Catalog(a), PointIdentifier::Catalog(b)) => *a == *b,
            (PointIdentifier::Point(a), PointIdentifier::Point(b)) => *a == *b,
            _ => false,
        }
    }

    /// A copy of the identifier.
    pub fn duplicate(&self) -> (r: PointIdentifier)
        ensures
            r == *self,
    {
        match self {
            PointIdentifier::Catalog(s) => PointIdentifier::Catalog(s.clone()),
            PointIdentifier::Point(s) => PointIdentifier::Point(s.clone()),
        }
    }
}

/// Why a configured point cannot be watched.
#[derive(Clone, Debug)]
pub enum PointError {
    /// The configuration gives the point neither a name nor a catalog
    /// reference. The model it stands under is kept for the report.
    MissingIdentifier { model: String },
}

/// One watched register of one device model.
#[derive(Clone, Debug)]
pub struct MonitoredPoint {
    /// Model number or name.
    pub model: String,
    /// The point on that model.
    pub name: PointIdentifier,
    /// Seconds between two reads; never below [`LOWER_LIMIT_INTERVAL`].
    pub interval: u64,
    /// The device class announced downstream (current, voltage, power, ...).
    pub device_class: Option<String>,
    /// The state class announced downstream (measurement, total_increasing, ...).
    pub state_class: Option<String>,
    /// Unit of measure that overrides the model's own.
    pub uom: Option<String>,
    /// Digits after the decimal point.
    pub precision: Option<u8>,
    /// Whether the point is announced for discovery.
    pub homeassistant_discovery: bool,
    /// Whether the point is writable.
    pub write_mode: Access,
    /// Preferred name of the point.
    pub display_name: Option<String>,
    /// Power-of-ten exponent applied to numeric readings.
    pub scale_factor: Option<i32>,
    /// How a write to the point is entered.
    pub input_type: Option<InputType>,
    /// The point only takes input and is never read.
    pub input_only: Option<bool>,
    /// Smallest reading that is accepted.
    pub value_min: Option<Scaled>,
    /// Largest reading that is accepted.
    pub value_max: Option<Scaled>,
    /// Standard deviations a reading may lie from the median unremarked.
    pub check_deviations: Option<u16>,
    pub this_address: Option<u16>,
}

/// The interval at which a point configured with `configured` seconds is
/// read: the configured one, raised to the floor where it lies below.
pub open spec fn effective_interval(configured: u64) -> u64 {
    if configured < LOWER_LIMIT_INTERVAL {
        LOWER_LIMIT_INTERVAL
    } else {
        configured
    }
}

/// Whether a point is announced for discovery: never where discovery is
/// switched off for the gateway, else as the point says, and by default yes.
pub open spec fn discovery_enabled(hass_enabled: Option<bool>, point_choice: Option<bool>) -> bool {
    if hass_enabled == Some(false) {
        false
    } else {
        match point_choice {
            Some(v) => v,
            None => true,
        }
    }
}

/// The write mode that a configuration asks for.
pub open spec fn configured_access(readwrite: Option<bool>) -> Access {
    if readwrite == Some(true) {
        Access::ReadWrite
    } else {
        Access::ReadOnly
    }
}

/// The identifier that a configuration gives a point.
pub open spec fn configured_identifier(pc: PointConfig) -> PointIdentifier
    recommends
        pc.has_identifier(),
{
    match pc.catalog_ref {
        Some(c) => PointIdentifier::Catalog(c),
        None => PointIdentifier::Point(pc.point->0),
    }
}

/// The watched point that the configuration `pc` describes on `model`.
pub open spec fn monitored_point_of(
    model: String,
    pc: PointConfig,
    hass_enabled: Option<bool>,
) -> MonitoredPoint
    recommends
        pc.has_identifier(),
{
    MonitoredPoint {
        model,
        name: configured_identifier(pc),
        interval: effective_interval(pc.interval),
        device_class: pc.device_class,
        state_class: pc.state_class,
        uom: pc.uom,
        precision: pc.precision,
        homeassistant_discovery: discovery_enabled(hass_enabled, pc.homeassistant),
        write_mode: configured_access(pc.readwrite),
        display_name: pc.display_name,
        scale_factor: pc.scale_factor,
        input_type: pc.inputs,
        input_only: pc.input_only,
        value_min: pc.value_min,
        value_max: pc.value_max,
        check_deviations: pc.check_deviations,
        this_address: None,
    }
}

impl MonitoredPoint {
    /// The invariant of a watched point: it is never read more often than
    /// the floor allows.
    pub open spec fn wf(&self) -> bool {
        self.interval >= LOWER_LIMIT_INTERVAL
    }

    /// Builds the watched point that `pc` describes on `model`.
    ///
    /// Fails exactly where `pc` holds neither a point name nor a catalog
    /// reference. Otherwise the interval is the configured one raised to the
    /// floor, and every other setting is taken over.
    pub fn new(model: String, pc: PointConfig, hass_enabled: Option<bool>) -> (r: Result<
        MonitoredPoint,
        PointError,
    >)
        ensures
            match r {
                Ok(p) => pc.has_identifier() && p == monitored_point_of(model, pc, hass_enabled),
                Err(e) => !pc.has_identifier() && e == (PointError::MissingIdentifier { model }),
            },
    {
        let interval_checked: u64 = if pc.interval < LOWER_LIMIT_INTERVAL {
            LOWER_LIMIT_INTERVAL
        } else {
            pc.interval
        };
        let write_mode = match pc.readwrite {
            Some(true) => Access::ReadWrite,
            _ => Access::ReadOnly,
        };
        let point_choice: bool = match pc.homeassistant {
            Some(v) => v,
            None => true,
        };
        let homeassistant_discovery: bool = match hass_enabled {
            Some(false) => false,
            _ => point_choice,
        };
        let name = match pc.catalog_ref {
            Some(c) => PointIdentifier::Catalog(c),
            None => match pc.point {
                Some(p) => PointIdentifier::Point(p),
                None => {
                    return Err(PointError::MissingIdentifier { model });
                },
            },
        };
        Ok(
            MonitoredPoint {
                model,
                name,
                interval: interval_checked,
                device_class: pc.device_class,
                state_class: pc.state_class,
                uom: pc.uom,
                precision: pc.precision,
                homeassistant_discovery,
                write_mode,
                display_name: pc.display_name,
                scale_factor: pc.scale_factor,
                input_type: pc.inputs,
                input_only: pc.input_only,
                value_min: pc.value_min,
                value_max: pc.value_max,
                check_deviations: pc.check_deviations,
                this_address: None,
            },
        )
    }
}

/// A configured interval below the floor is scheduled at exactly the floor,
/// and no configured interval is scheduled below it.
pub proof fn lemma_interval_floor(configured: u64)
    ensures
        configured < LOWER_LIMIT_INTERVAL ==> effective_interval(configured)
            == LOWER_LIMIT_INTERVAL,
        configured >= LOWER_LIMIT_INTERVAL ==> effective_interval(configured) == configured,
        effective_interval(configured) >= LOWER_LIMIT_INTERVAL,
{
}

} // verus!
