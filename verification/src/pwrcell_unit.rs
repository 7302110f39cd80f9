//! The classes of unit that a REbus power system is made of.

use vstd::prelude::*;
use vstd::string::*;
use crate::text::{eq_ignore_ascii_case, same_ignoring_ascii_case};

verus! {

/// The class of a unit, as its model name tells it.
#[derive(Clone, Copy, Debug, PartialEq, Eq, Structural)]
pub enum PWRCellUnitClass {
    Beacon,
    ICM,
    Inverter,
    Battery,
    PVLink,
    /// No class is known.
    Unclassified,
}

/// Why a text names no class.
#[derive(Clone, Copy, Debug, PartialEq, Eq, Structural)]
pub enum ParseError {
    VariantNotFound,
}

/// The class that a model name stands for. The case of Latin letters does
/// not matter.
pub open spec fn class_of(s: Seq<char>) -> Option<PWRCellUnitClass> {
    if same_ignoring_ascii_case(s, "rebus beacon"@) {
        Some(PWRCellUnitClass::Beacon)
    } else if same_ignoring_ascii_case(s, "ICM"@) {
        Some(PWRCellUnitClass::ICM)
    } else if same_ignoring_ascii_case(s, "PWRcell XVT076A03 Inverter"@) {
        Some(PWRCellUnitClass::Inverter)
    } else if same_ignoring_ascii_case(s, "PWRcell Battery"@) {
        Some(PWRCellUnitClass::Battery)
    } else if same_ignoring_ascii_case(s, "PV Link"@) {
        Some(PWRCellUnitClass::PVLink)
    } else {
        None
    }
}

/// The model name of a class.
pub open spec fn class_name(c: PWRCellUnitClass) -> Seq<char> {
    match c {
        PWRCellUnitClass::Beacon => "REbus Beacon"@,
        PWRCellUnitClass::ICM => "ICM"@,
        PWRCellUnitClass::Inverter => "PWRcell XVT076A03 Inverter"@,
        PWRCellUnitClass::Battery => "PWRcell Battery"@,
        PWRCellUnitClass::PVLink => "PV Link"@,
        PWRCellUnitClass::Unclassified => "None"@,
    }
}

impl PWRCellUnitClass {
    /// Reads a class off a model name.
    pub fn from_str(s: &str) -> (r: Result<PWRCellUnitClass, ParseError>)
        ensures
            match class_of(s@) {
                Some(c) => r == Ok::<PWRCellUnitClass, ParseError>(c),
                None => r == Err::<PWRCellUnitClass, ParseError>(ParseError::VariantNotFound),
            },
    {
        if eq_ignore_ascii_case(s, "rebus beacon") {
            Ok(PWRCellUnitClass::Beacon)
        } else if eq_ignore_ascii_case(s, "ICM") {
            Ok(PWRCellUnitClass::ICM)
        } else if eq_ignore_ascii_case(s, "PWRcell XVT076A03 Inverter") {
            Ok(PWRCellUnitClass::Inverter)
        } else if eq_ignore_ascii_case(s, "PWRcell Battery") {
            Ok(PWRCellUnitClass::Battery)
        } else if eq_ignore_ascii_case(s, "PV Link") {
            Ok(PWRCellUnitClass::PVLink)
        } else {
            Err(ParseError::VariantNotFound)
        }
    }

    /// Reads a class off a model name.
    pub fn try_from(s: &str) -> (r: Result<PWRCellUnitClass, ParseError>)
        ensures
            match class_of(s@) {
                Some(c) => r == Ok::<PWRCellUnitClass, ParseError>(c),
                None => r == Err::<PWRCellUnitClass, ParseError>(ParseError::VariantNotFound),
            },
    {
        PWRCellUnitClass::from_str(s)
    }

    /// The model name of the class.
    pub fn name(&self) -> (r: &'static str)
        ensures
            r@ == class_name(*self),
    {
        match self {
            PWRCellUnitClass::Beacon => "REbus Beacon",
            PWRCellUnitClass::ICM => "ICM",
            PWRCellUnitClass::Inverter => "PWRcell XVT076A03 Inverter",
            PWRCellUnitClass::Battery => "PWRcell Battery",
            PWRCellUnitClass::PVLink => "PV Link",
            PWRCellUnitClass::Unclassified => "None",
        }
    }
}

} // verus!
