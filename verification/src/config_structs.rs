//! The point catalog as configured: which points to watch on which model, and
//! how each is scaled, bounded and offered for writing.

use vstd::prelude::*;
use crate::scaled::Scaled;

verus! {

/// One network address and the sub-units that answer on it.
#[derive(Clone, Debug, Default)]
pub struct UnitConfig {
    pub addr: String,
    pub slaves: Vec<u8>,
}

/// The two payloads of a switch.
#[derive(Clone, Debug)]
pub struct Switchable {
    pub on: String,
    pub off: String,
}

/// The range of a numeric input.
#[derive(Clone, Debug)]
pub struct NumberInput {
    pub min: i32,
    pub max: i32,
    pub step: Option<i32>,
    pub mode: Option<String>,
}

/// How a writable point takes its input.
#[derive(Clone, Debug)]
pub enum InputType {
    /// One of a list of named options.
    Select(Vec<String>),
    /// One of two payloads.
    Switch(Switchable),
    /// A single payload.
    Button(String),
    /// A whole number within a range.
    Number(NumberInput),
}

/// One configured point of a model.
#[derive(Clone, Debug, Default)]
pub struct PointConfig {
    /// The point's name in its model.
    pub point: Option<String>,
    /// The point's reference in the catalog, which takes precedence over the
    /// name.
    pub catalog_ref: Option<String>,
    /// Seconds between two reads.
    pub interval: u64,
    pub device_class: Option<String>,
    pub display_name: Option<String>,
    pub state_class: Option<String>,
    pub uom: Option<String>,
    pub precision: Option<u8>,
    pub readwrite: Option<bool>,
    pub homeassistant: Option<bool>,
    pub scale_factor: Option<i32>,
    pub inputs: Option<InputType>,
    pub input_only: Option<bool>,
    pub value_min: Option<Scaled>,
    pub value_max: Option<Scaled>,
    pub check_deviations: Option<u16>,
}

/// The points configured for one model.
#[derive(Clone, Debug, Default)]
pub struct ModelCatalog {
    /// Model number or name.
    pub model: String,
    pub points: Vec<PointConfig>,
}

impl PointConfig {
    /// The text by which the point is addressed: its catalog reference where
    /// it has one, else its name, else nothing.
    pub open spec fn spec_name(&self) -> Seq<char> {
        match (self.catalog_ref, self.point) {
            (Some(c), _) => c@,
            (None, Some(p)) => p@,
            (None, None) => Seq::empty(),
        }
    }

    /// Whether the point can be addressed at all.
    pub open spec fn has_identifier(&self) -> bool {
        self.point is Some || self.catalog_ref is Some
    }

    /// The text by which the point is addressed.
    pub fn name(&self) -> (r: String)
        ensures
            r@ == self.spec_name(),
    {
        match &self.catalog_ref {
            Some(c) => c.clone(),
            None => match &self.point {
                Some(p) => p.clone(),
                None => String::new(),
            },
        }
    }
}

} // verus!
