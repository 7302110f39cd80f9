//! Telemetry as it leaves the gateway: the discovery message that describes a
//! point downstream, the state message that carries its value, and the rules
//! that turn one reading into such messages.

use vstd::prelude::*;
use vstd::string::*;
use crate::config_structs::InputType;
use crate::consts::{DEFAULT_DISPLAY_PRECISION, EXPIRES_AFTER_SECS};
use crate::monitored_point::{Access, MonitoredPoint};
use crate::scaled::{apply_scale_factor, pow10, scaled_micros, shifted, Scaled};
use crate::sunspec_unit::{PointData, SunSpecUnit, ValueType};
use crate::text::{copy_opt, copy_strings, opt_text, split_first, split_once, texts};
use crate::topics::{
    command_topic, command_topic_text, config_topic, config_topic_text, default_name,
    default_name_text, entity_id, entity_id_text, flag_label, flag_label_text, flag_name,
    flag_name_text, lemma_split_first_joined, state_topic, state_topic_text, unique_id,
    unique_id_text,
};

verus! {

/// What identifies a device downstream.
#[derive(Clone, Debug, Default)]
pub struct DeviceInfo {
    pub identifiers: Vec<String>,
    pub manufacturer: String,
    pub name: String,
    pub model: String,
    pub sw_version: String,
}

/// The texts of a [`DeviceInfo`].
pub struct DeviceInfoView {
    pub identifiers: Seq<Seq<char>>,
    pub manufacturer: Seq<char>,
    pub name: Seq<char>,
    pub model: Seq<char>,
    pub sw_version: Seq<char>,
}

impl View for DeviceInfo {
    type V = DeviceInfoView;

    open spec fn view(&self) -> DeviceInfoView {
        DeviceInfoView {
            identifiers: texts(self.identifiers@),
            manufacturer: self.manufacturer@,
            name: self.name@,
            model: self.model@,
            sw_version: self.sw_version@,
        }
    }
}

impl DeviceInfo {
    /// A copy of the device description.
    pub fn duplicate(&self) -> (r: DeviceInfo)
        ensures
            r@ == self@,
    {
        DeviceInfo {
            identifiers: copy_strings(&self.identifiers),
            manufacturer: self.manufacturer.clone(),
            name: self.name.clone(),
            model: self.model.clone(),
            sw_version: self.sw_version.clone(),
        }
    }
}

/// The value of a state message.
#[derive(Clone, Debug)]
pub enum PayloadValueType {
    /// A quantity with decimal places.
    Float(Scaled),
    Int(i64),
    String(String),
    Boolean(bool),
    /// No value.
    Null,
}

/// The content of a [`PayloadValueType`].
pub enum PayloadValueView {
    Float(Scaled),
    Int(i64),
    String(Seq<char>),
    Boolean(bool),
    /// No value.
    Null,
}

impl View for PayloadValueType {
    type V = PayloadValueView;

    open spec fn view(&self) -> PayloadValueView {
        match self {
            PayloadValueType::Float(q) => PayloadValueView::Float(*q),
            PayloadValueType::Int(i) => PayloadValueView::Int(*i),
            PayloadValueType::String(s) => PayloadValueView::String(s@),
            PayloadValueType::Boolean(b) => PayloadValueView::Boolean(*b),
            PayloadValueType::Null => PayloadValueView::Null,
        }
    }
}

impl PayloadValueType {
    /// A copy of the value.
    pub fn duplicate(&self) -> (r: PayloadValueType)
        ensures
            r@ == self@,
    {
        match self {
            PayloadValueType::Float(q) => PayloadValueType::Float(*q),
            PayloadValueType::Int(i) => PayloadValueType::Int(*i),
            PayloadValueType::String(s) => PayloadValueType::String(s.clone()),
            PayloadValueType::Boolean(b) => PayloadValueType::Boolean(*b),
            PayloadValueType::Null => PayloadValueType::Null,
        }
    }
}

/// Where an entity is filed downstream.
#[derive(Clone, Copy, Debug, PartialEq, Eq, Structural)]
pub enum EntityCategory {
    Config,
    Diagnostic,
}

/// The discovery message of one point.
#[derive(Clone, Debug)]
pub struct HAConfigPayload {
    pub name: String,
    pub device: DeviceInfo,
    pub unique_id: String,
    pub entity_id: String,
    pub state_topic: String,
    pub expires_after: u64,
    pub entity_category: Option<EntityCategory>,
    pub command_topic: Option<String>,
    pub payload_on: Option<String>,
    pub payload_off: Option<String>,
    pub state_class: Option<String>,
    pub device_class: Option<String>,
    pub native_uom: Option<String>,
    pub options: Option<Vec<String>>,
    pub value_template: Option<String>,
    pub suggested_display_precision: Option<u8>,
    pub assumed_state: Option<bool>,
    pub attribution: Option<String>,
    pub available: Option<bool>,
    pub entity_picture: Option<String>,
    pub extra_state_attributes: Option<Vec<(String, String)>>,
    pub has_entity_name: Option<bool>,
    pub should_poll: Option<bool>,
    pub translation_key: Option<String>,
    pub payload_press: Option<String>,
    pub min: Option<i32>,
    pub max: Option<i32>,
    pub mode: Option<String>,
    pub step: Option<i32>,
}

/// The content of a [`HAConfigPayload`].
pub struct HAConfigView {
    pub name: Seq<char>,
    pub device: DeviceInfoView,
    pub unique_id: Seq<char>,
    pub entity_id: Seq<char>,
    pub state_topic: Seq<char>,
    pub expires_after: u64,
    pub entity_category: Option<EntityCategory>,
    pub command_topic: Option<Seq<char>>,
    pub payload_on: Option<Seq<char>>,
    pub payload_off: Option<Seq<char>>,
    pub state_class: Option<Seq<char>>,
    pub device_class: Option<Seq<char>>,
    pub native_uom: Option<Seq<char>>,
    pub options: Option<Seq<Seq<char>>>,
    pub value_template: Option<Seq<char>>,
    pub suggested_display_precision: Option<u8>,
    pub assumed_state: Option<bool>,
    pub attribution: Option<Seq<char>>,
    pub available: Option<bool>,
    pub entity_picture: Option<Seq<char>>,
    pub extra_state_attributes: Option<Seq<(Seq<char>, Seq<char>)>>,
    pub has_entity_name: Option<bool>,
    pub should_poll: Option<bool>,
    pub translation_key: Option<Seq<char>>,
    pub payload_press: Option<Seq<char>>,
    pub min: Option<i32>,
    pub max: Option<i32>,
    pub mode: Option<Seq<char>>,
    pub step: Option<i32>,
}

/// The texts of an optional list of strings.
pub open spec fn opt_texts(o: Option<Vec<String>>) -> Option<Seq<Seq<char>>> {
    match o {
        Some(v) => Some(texts(v@)),
        None => None,
    }
}

/// The texts of an optional list of pairs of strings.
pub open spec fn opt_pairs(o: Option<Vec<(String, String)>>) -> Option<Seq<(Seq<char>, Seq<char>)>> {
    match o {
        Some(v) => Some(v@.map_values(|p: (String, String)| (p.0@, p.1@))),
        None => None,
    }
}

impl View for HAConfigPayload {
    type V = HAConfigView;

    open spec fn view(&self) -> HAConfigView {
        HAConfigView {
            name: self.name@,
            device: self.device@,
            unique_id: self.unique_id@,
            entity_id: self.entity_id@,
            state_topic: self.state_topic@,
            expires_after: self.expires_after,
            entity_category: self.entity_category,
            command_topic: opt_text(self.command_topic),
            payload_on: opt_text(self.payload_on),
            payload_off: opt_text(self.payload_off),
            state_class: opt_text(self.state_class),
            device_class: opt_text(self.device_class),
            native_uom: opt_text(self.native_uom),
            options: opt_texts(self.options),
            value_template: opt_text(self.value_template),
            suggested_display_precision: self.suggested_display_precision,
            assumed_state: self.assumed_state,
            attribution: opt_text(self.attribution),
            available: self.available,
            entity_picture: opt_text(self.entity_picture),
            extra_state_attributes: opt_pairs(self.extra_state_attributes),
            has_entity_name: self.has_entity_name,
            should_poll: self.should_poll,
            translation_key: opt_text(self.translation_key),
            payload_press: opt_text(self.payload_press),
            min: self.min,
            max: self.max,
            mode: opt_text(self.mode),
            step: self.step,
        }
    }
}

/// The discovery message that says nothing yet.
pub open spec fn empty_config_view() -> HAConfigView {
    HAConfigView {
        name: Seq::empty(),
        device: DeviceInfoView {
            identifiers: Seq::empty(),
            manufacturer: Seq::empty(),
            name: Seq::empty(),
            model: Seq::empty(),
            sw_version: Seq::empty(),
        },
        unique_id: Seq::empty(),
        entity_id: Seq::empty(),
        state_topic: Seq::empty(),
        expires_after: 0,
        entity_category: None,
        command_topic: None,
        payload_on: None,
        payload_off: None,
        state_class: None,
        device_class: None,
        native_uom: None,
        options: None,
        value_template: None,
        suggested_display_precision: None,
        assumed_state: None,
        attribution: None,
        available: None,
        entity_picture: None,
        extra_state_attributes: None,
        has_entity_name: None,
        should_poll: None,
        translation_key: None,
        payload_press: None,
        min: None,
        max: None,
        mode: None,
        step: None,
    }
}

/// A copy of an optional list of strings.
fn copy_opt_strings(o: &Option<Vec<String>>) -> (r: Option<Vec<String>>)
    ensures
        opt_texts(r) == opt_texts(*o),
{
    match o {
        Some(v) => Some(copy_strings(v)),
        None => None,
    }
}

/// A copy of an optional list of pairs of strings.
fn copy_opt_pairs(o: &Option<Vec<(String, String)>>) -> (r: Option<Vec<(String, String)>>)
    ensures
        opt_pairs(r) == opt_pairs(*o),
{
    match o {
        Some(v) => {
            let mut r: Vec<(String, String)> = Vec::new();
            let n: usize = v.len();
            let mut i: usize = 0;
            while i < n
                invariant
                    n == v@.len(),
                    i <= n,
                    r@ == v@.take(i as int),
                decreases n - i,
            {
                r.push((v[i].0.clone(), v[i].1.clone()));
                i = i + 1;
                assert(r@ =~= v@.take(i as int));
            }
            assert(v@.take(n as int) =~= v@);
            Some(r)
        },
        None => None,
    }
}

impl HAConfigPayload {
    /// The discovery message that says nothing yet.
    pub fn empty() -> (r: HAConfigPayload)
        ensures
            r@ == empty_config_view(),
    {
        let r = HAConfigPayload {
            name: String::new(),
            device: DeviceInfo {
                identifiers: Vec::new(),
                manufacturer: String::new(),
                name: String::new(),
                model: String::new(),
                sw_version: String::new(),
            },
            unique_id: String::new(),
            entity_id: String::new(),
            state_topic: String::new(),
            expires_after: 0,
            entity_category: None,
            command_topic: None,
            payload_on: None,
            payload_off: None,
            state_class: None,
            device_class: None,
            native_uom: None,
            options: None,
            value_template: None,
            suggested_display_precision: None,
            assumed_state: None,
            attribution: None,
            available: None,
            entity_picture: None,
            extra_state_attributes: None,
            has_entity_name: None,
            should_poll: None,
            translation_key: None,
            payload_press: None,
            min: None,
            max: None,
            mode: None,
            step: None,
        };
        assert(r.device@.identifiers =~= Seq::<Seq<char>>::empty());
        r
    }

    /// A copy of the message.
    pub fn duplicate(&self) -> (r: HAConfigPayload)
        ensures
            r@ == self@,
    {
        HAConfigPayload {
            name: self.name.clone(),
            device: self.device.duplicate(),
            unique_id: self.unique_id.clone(),
            entity_id: self.entity_id.clone(),
            state_topic: self.state_topic.clone(),
            expires_after: self.expires_after,
            entity_category: self.entity_category,
            command_topic: copy_opt(&self.command_topic),
            payload_on: copy_opt(&self.payload_on),
            payload_off: copy_opt(&self.payload_off),
            state_class: copy_opt(&self.state_class),
            device_class: copy_opt(&self.device_class),
            native_uom: copy_opt(&self.native_uom),
            options: copy_opt_strings(&self.options),
            value_template: copy_opt(&self.value_template),
            suggested_display_precision: self.suggested_display_precision,
            assumed_state: self.assumed_state,
            attribution: copy_opt(&self.attribution),
            available: self.available,
            entity_picture: copy_opt(&self.entity_picture),
            extra_state_attributes: copy_opt_pairs(&self.extra_state_attributes),
            has_entity_name: self.has_entity_name,
            should_poll: self.should_poll,
            translation_key: copy_opt(&self.translation_key),
            payload_press: copy_opt(&self.payload_press),
            min: self.min,
            max: self.max,
            mode: copy_opt(&self.mode),
            step: self.step,
        }
    }
}

impl Default for HAConfigPayload {
    fn default() -> (r: HAConfigPayload)
        ensures
            r@ == empty_config_view(),
    {
        HAConfigPayload::empty()
    }
}

/// The state message of one point.
#[derive(Clone, Debug)]
pub struct StatePayload {
    pub value: PayloadValueType,
    pub label: Option<String>,
    pub description: Option<String>,
    pub notes: Option<String>,
    /// When the value was read, in seconds since the epoch.
    pub last_seen: i64,
}

/// The content of a [`StatePayload`].
pub struct StateView {
    pub value: PayloadValueView,
    pub label: Option<Seq<char>>,
    pub description: Option<Seq<char>>,
    pub notes: Option<Seq<char>>,
    pub last_seen: i64,
}

impl View for StatePayload {
    type V = StateView;

    open spec fn view(&self) -> StateView {
        StateView {
            value: self.value@,
            label: opt_text(self.label),
            description: opt_text(self.description),
            notes: opt_text(self.notes),
            last_seen: self.last_seen,
        }
    }
}

impl StatePayload {
    /// The state message without a value, seen at `now`.
    pub fn empty(now: i64) -> (r: StatePayload)
        ensures
            r@ == (StateView {
                value: PayloadValueView::Null,
                label: None,
                description: None,
                notes: None,
                last_seen: now,
            }),
    {
        StatePayload {
            value: PayloadValueType::Null,
            label: None,
            description: None,
            notes: None,
            last_seen: now,
        }
    }

    /// A copy of the message.
    pub fn duplicate(&self) -> (r: StatePayload)
        ensures
            r@ == self@,
    {
        StatePayload {
            value: self.value.duplicate(),
            label: copy_opt(&self.label),
            description: copy_opt(&self.description),
            notes: copy_opt(&self.notes),
            last_seen: self.last_seen,
        }
    }
}

/// What is published under a topic.
#[derive(Clone, Debug)]
pub enum Payload {
    Config(HAConfigPayload),
    CurrentState(StatePayload),
    /// Nothing to publish.
    Empty,
}

/// The content of a [`Payload`].
pub enum PayloadView {
    Config(HAConfigView),
    CurrentState(StateView),
    Empty,
}

impl View for Payload {
    type V = PayloadView;

    open spec fn view(&self) -> PayloadView {
        match self {
            Payload::Config(c) => PayloadView::Config(c@),
            Payload::CurrentState(s) => PayloadView::CurrentState(s@),
            Payload::Empty => PayloadView::Empty,
        }
    }
}

/// The two messages of one point, each with its topic.
#[derive(Clone, Debug)]
pub struct CompoundPayload {
    pub config: HAConfigPayload,
    pub config_topic: String,
    pub state: StatePayload,
    pub state_topic: String,
}

/// The content of a [`CompoundPayload`].
pub struct CompoundView {
    pub config: HAConfigView,
    pub config_topic: Seq<char>,
    pub state: StateView,
    pub state_topic: Seq<char>,
}

impl View for CompoundPayload {
    type V = CompoundView;

    open spec fn view(&self) -> CompoundView {
        CompoundView {
            config: self.config@,
            config_topic: self.config_topic@,
            state: self.state@,
            state_topic: self.state_topic@,
        }
    }
}

/// The contents of a list of compound payloads.
pub open spec fn compound_views(v: Seq<CompoundPayload>) -> Seq<CompoundView> {
    v.map_values(|p: CompoundPayload| p@)
}

/// The discovery message of a point before anything is known of its value.
pub open spec fn base_config_view(unit: SunSpecUnit, mp: MonitoredPoint) -> HAConfigView {
    HAConfigView {
        name: match mp.display_name {
            Some(d) => d@,
            None => default_name_text(mp.model@, mp.name.text()),
        },
        device: unit.device_info@,
        unique_id: unique_id_text(unit.serial_number@, mp.model@, mp.name.text()),
        entity_id: entity_id_text("sensor"@, mp.model@, mp.name.text()),
        expires_after: EXPIRES_AFTER_SECS,
        state_class: opt_text(mp.state_class),
        device_class: opt_text(mp.device_class),
        value_template: Some("{{ value_json.value }}"@),
        ..empty_config_view()
    }
}

/// The unit of measure announced for a numeric point: the configured one,
/// else the model's own.
pub open spec fn announced_uom(mp: MonitoredPoint, pd: PointData) -> Option<Seq<char>> {
    if mp.uom is Some {
        opt_text(mp.uom)
    } else {
        opt_text(pd.units)
    }
}

/// The display precision announced for a point with decimal places.
pub open spec fn announced_precision(mp: MonitoredPoint) -> Option<u8> {
    if mp.precision is Some {
        mp.precision
    } else {
        Some(DEFAULT_DISPLAY_PRECISION)
    }
}

/// The millionths that a numeric reading stands for once its scale factor is
/// applied.
pub open spec fn reading_micros(val: ValueType, scale: Option<i32>) -> int {
    match val {
        ValueType::Integer(i) => scaled_micros(
            i as int,
            match scale {
                Some(s) => s as int,
                None => 0,
            },
        ),
        ValueType::Float(q) => match scale {
            Some(s) => shifted(q.micros as int, s as int),
            None => q.micros as int,
        },
        _ => 0,
    }
}

/// Whether `m` millionths lie within the optional bounds, each included.
pub open spec fn in_bounds(m: int, min: Option<Scaled>, max: Option<Scaled>) -> bool {
    &&& min matches Some(lo) ==> lo.micros <= m
    &&& max matches Some(hi) ==> m <= hi.micros
}

/// Whether a reading is published. A numeric reading is rejected where its
/// scaled value lies outside the point's bounds, or where it is published
/// with decimal places and does not fit 64 bits of millionths.
pub open spec fn reading_accepted(val: ValueType, mp: MonitoredPoint) -> bool {
    let m = reading_micros(val, mp.scale_factor);
    match val {
        ValueType::Integer(_) => in_bounds(m, mp.value_min, mp.value_max) && (mp.scale_factor
            is Some ==> i64::MIN <= m <= i64::MAX),
        ValueType::Float(_) => in_bounds(m, mp.value_min, mp.value_max) && i64::MIN <= m
            <= i64::MAX,
        _ => true,
    }
}

/// The value under which an accepted reading is published.
pub open spec fn published_value(val: ValueType, mp: MonitoredPoint) -> PayloadValueView {
    match val {
        ValueType::String(s) => PayloadValueView::String(s@),
        ValueType::Integer(i) => if mp.scale_factor is Some {
            PayloadValueView::Float(
                Scaled { micros: reading_micros(val, mp.scale_factor) as i64 },
            )
        } else {
            PayloadValueView::Int(i)
        },
        ValueType::Float(_) => PayloadValueView::Float(
            Scaled { micros: reading_micros(val, mp.scale_factor) as i64 },
        ),
        ValueType::Boolean(b) => PayloadValueView::String(
            if b {
                "true"@
            } else {
                "false"@
            },
        ),
        ValueType::Array(_) => PayloadValueView::Null,
        ValueType::Pad => PayloadValueView::Null,
    }
}

/// The discovery message once the kind of the reading is known.
pub open spec fn config_for_reading(
    c: HAConfigView,
    pd: PointData,
    mp: MonitoredPoint,
    val: ValueType,
) -> HAConfigView {
    match val {
        ValueType::Integer(_) => HAConfigView {
            native_uom: announced_uom(mp, pd),
            suggested_display_precision: if mp.scale_factor is Some {
                announced_precision(mp)
            } else {
                c.suggested_display_precision
            },
            ..c
        },
        ValueType::Float(_) => HAConfigView {
            native_uom: announced_uom(mp, pd),
            suggested_display_precision: announced_precision(mp),
            name: match pd.literal {
                Some(l) => match l.label {
                    Some(label) => label@,
                    None => c.name,
                },
                None => c.name,
            },
            ..c
        },
        _ => c,
    }
}

/// The state message of an accepted reading.
pub open spec fn state_for_reading(
    pd: PointData,
    mp: MonitoredPoint,
    val: ValueType,
    now: i64,
) -> StateView {
    let described = val is Float && pd.literal is Some;
    StateView {
        value: published_value(val, mp),
        label: if described {
            opt_text(pd.literal->0.label)
        } else {
            None
        },
        description: if described {
            opt_text(pd.literal->0.description)
        } else {
            None
        },
        notes: if described {
            opt_text(pd.literal->0.notes)
        } else {
            None
        },
        last_seen: now,
    }
}

/// The kind of entity under which a point is announced: a sensor, unless the
/// point is writable and says how it takes its input.
pub open spec fn entity_kind(mp: MonitoredPoint) -> Seq<char> {
    if mp.write_mode == Access::ReadWrite {
        match mp.input_type {
            Some(InputType::Select(_)) => "select"@,
            Some(InputType::Switch(_)) => "switch"@,
            Some(InputType::Button(_)) => "button"@,
            Some(InputType::Number(_)) => "number"@,
            None => "sensor"@,
        }
    } else {
        "sensor"@
    }
}

/// The discovery message with what a writable point adds: the topic that
/// takes its writes, and the shape of its input.
pub open spec fn config_for_write(c: HAConfigView, sn: Seq<char>, mp: MonitoredPoint) -> HAConfigView {
    if mp.write_mode == Access::ReadWrite {
        let model = mp.model@;
        let point = mp.name.text();
        let c1 = HAConfigView { command_topic: Some(command_topic_text(sn, model, point)), ..c };
        match mp.input_type {
            Some(InputType::Select(options)) => HAConfigView {
                options: Some(texts(options@)),
                entity_category: Some(EntityCategory::Config),
                entity_id: entity_id_text("select"@, model, point),
                ..c1
            },
            Some(InputType::Switch(sw)) => HAConfigView {
                payload_on: Some(sw.on@),
                payload_off: Some(sw.off@),
                entity_category: Some(EntityCategory::Config),
                entity_id: entity_id_text("switch"@, model, point),
                ..c1
            },
            Some(InputType::Button(press)) => HAConfigView {
                payload_press: Some(press@),
                entity_category: Some(EntityCategory::Config),
                entity_id: entity_id_text("button"@, model, point),
                ..c1
            },
            Some(InputType::Number(num)) => HAConfigView {
                min: Some(num.min),
                max: Some(num.max),
                step: num.step,
                mode: opt_text(num.mode),
                entity_category: Some(EntityCategory::Config),
                entity_id: entity_id_text("number"@, model, point),
                ..c1
            },
            None => c1,
        }
    } else {
        c
    }
}

/// The pair of messages of a point, given its discovery message so far and
/// its state message.
pub open spec fn finished_payload(
    c: HAConfigView,
    state: StateView,
    unit: SunSpecUnit,
    mp: MonitoredPoint,
) -> CompoundView {
    let sn = unit.serial_number@;
    let topic = state_topic_text(sn, mp.model@, mp.name.text());
    CompoundView {
        config: HAConfigView { state_topic: topic, ..config_for_write(c, sn, mp) },
        config_topic: config_topic_text(entity_kind(mp), sn, mp.model@, mp.name.text()),
        state,
        state_topic: topic,
    }
}

/// The pair of messages of one state of an enumerated point, which is
/// announced as a binary sensor and reported as `on` or `off`.
pub open spec fn flag_payload(
    base: HAConfigView,
    sn: Seq<char>,
    model: Seq<char>,
    point: Seq<char>,
    state: Seq<char>,
    on: bool,
    now: i64,
) -> CompoundView {
    let flag = flag_name_text(point, state);
    let topic = state_topic_text(sn, model, flag);
    CompoundView {
        config: HAConfigView {
            unique_id: unique_id_text(sn, model, point) + "."@ + state,
            entity_id: entity_id_text("binary_sensor"@, model, flag),
            name: flag_label_text(model, point, state),
            state_topic: topic,
            payload_on: Some("on"@),
            payload_off: Some("off"@),
            ..base
        },
        config_topic: config_topic_text("binary_sensor"@, sn, model, flag),
        state: StateView {
            value: PayloadValueView::String(
                if on {
                    "on"@
                } else {
                    "off"@
                },
            ),
            label: None,
            description: None,
            notes: None,
            last_seen: now,
        },
        state_topic: topic,
    }
}

/// The four parts of the identifier of one state of an enumerated point:
/// serial number, model, point and state. The state is what follows the
/// third dot. `None` where the identifier holds fewer than three dots.
pub open spec fn split_unique(u: Seq<char>) -> Option<
    (Seq<char>, Seq<char>, Seq<char>, Seq<char>),
> {
    match split_first(u, '.') {
        Some((sn, r1)) => match split_first(r1, '.') {
            Some((model, r2)) => match split_first(r2, '.') {
                Some((point, state)) => Some((sn, model, point, state)),
                None => None,
            },
            None => None,
        },
        None => None,
    }
}

/// Whether serial number, model and point are free of dots, so that the
/// identifier of a state can be taken apart again.
pub open spec fn state_free_of_dots(sn: Seq<char>, model: Seq<char>, point: Seq<char>) -> bool {
    !sn.contains('.') && !model.contains('.') && !point.contains('.')
}

/// The identifier of a state leads back to its parts: built from a serial
/// number, a model and a point that hold no dot, it splits into just these
/// and the state.
pub proof fn lemma_state_unique_id_splits(
    sn: Seq<char>,
    model: Seq<char>,
    point: Seq<char>,
    state: Seq<char>,
)
    requires
        state_free_of_dots(sn, model, point),
    ensures
        split_unique(unique_id_text(sn, model, point) + "."@ + state) == Some(
            (sn, model, point, state),
        ),
{
    reveal_strlit(".");
    let dot = seq!['.'];
    assert("."@ =~= dot);
    let r2 = point + dot + state;
    let r1 = model + dot + r2;
    let id = unique_id_text(sn, model, point) + "."@ + state;
    assert(id =~= sn + dot + r1);
    lemma_split_first_joined(sn, '.', r1);
    lemma_split_first_joined(model, '.', r2);
    lemma_split_first_joined(point, '.', state);
}

/// One `on` message for each state that is set, in their order.
pub open spec fn on_payloads(
    base: HAConfigView,
    sn: Seq<char>,
    model: Seq<char>,
    point: Seq<char>,
    states: Seq<String>,
    now: i64,
) -> Seq<CompoundView> {
    Seq::new(
        states.len(),
        |i: int| flag_payload(base, sn, model, point, states[i]@, true, now),
    )
}

/// One `off` message for each identifier in `stale` that names a state, in
/// their order. An identifier with fewer than three dots names none and is
/// passed over.
pub open spec fn off_payloads(base: HAConfigView, stale: Seq<String>, now: i64) -> Seq<
    CompoundView,
>
    decreases stale.len(),
{
    if stale.len() == 0 {
        Seq::empty()
    } else {
        let rest = off_payloads(base, stale.drop_last(), now);
        match split_unique(stale.last()@) {
            Some((sn, model, point, state)) => rest.push(
                flag_payload(base, sn, model, point, state, false, now),
            ),
            None => rest,
        }
    }
}

/// The messages that one evaluation of a point leads to.
///
/// Without a reading, or without the model's description of the point, the
/// point is announced with an empty state. An enumerated reading fans out
/// into one `on` message per state that is set, followed by one `off` message
/// per state in `stale`. Any other reading gives one pair of messages, or
/// none where the reading is rejected.
pub open spec fn expected_payloads(
    unit: SunSpecUnit,
    point_data: Option<&PointData>,
    mp: MonitoredPoint,
    val: Option<&ValueType>,
    stale: Seq<String>,
    now: i64,
) -> Seq<CompoundView> {
    let base = base_config_view(unit, mp);
    match (val, point_data) {
        (Some(v), Some(pd)) => match *v {
            ValueType::Array(states) => on_payloads(
                base,
                unit.serial_number@,
                mp.model@,
                mp.name.text(),
                states@,
                now,
            ) + off_payloads(base, stale, now),
            _ => if reading_accepted(*v, mp) {
                seq![
                    finished_payload(
                        config_for_reading(base, *pd, mp, *v),
                        state_for_reading(*pd, mp, *v, now),
                        unit,
                        mp,
                    ),
                ]
            } else {
                Seq::empty()
            },
        },
        _ => seq![
            finished_payload(
                base,
                (StateView {
                    value: PayloadValueView::Null,
                    label: None,
                    description: None,
                    notes: None,
                    last_seen: now,
                }),
                unit,
                mp,
            ),
        ],
    }
}

/// Builds the discovery message of a point before its value is known.
fn base_config(unit: &SunSpecUnit, mp: &MonitoredPoint) -> (r: HAConfigPayload)
    ensures
        r@ == base_config_view(*unit, *mp),
{
    let mut c = HAConfigPayload::empty();
    let model = mp.model.as_str();
    let point = mp.name.as_str();
    c.name = match &mp.display_name {
        Some(d) => d.clone(),
        None => default_name(model, point),
    };
    c.device = unit.device_info.duplicate();
    c.unique_id = unique_id(unit.serial_number.as_str(), model, point);
    c.entity_id = entity_id("sensor", model, point);
    c.expires_after = EXPIRES_AFTER_SECS;
    c.state_class = copy_opt(&mp.state_class);
    c.device_class = copy_opt(&mp.device_class);
    c.value_template = Some(String::from_str("{{ value_json.value }}"));
    c
}

/// Decides whether a reading is published, and under which value.
fn reading_value(val: &ValueType, mp: &MonitoredPoint) -> (r: Option<PayloadValueType>)
    requires
        !(val is Array),
    ensures
        match r {
            Some(v) => reading_accepted(*val, *mp) && v@ == published_value(*val, *mp),
            None => !reading_accepted(*val, *mp),
        },
{
    match val {
        ValueType::String(s) => Some(PayloadValueType::String(s.clone())),
        ValueType::Integer(i) => match mp.scale_factor {
            Some(scale) => match apply_scale_factor(*i, scale) {
                Some(q) => if q.is_within(&mp.value_min, &mp.value_max) {
                    Some(PayloadValueType::Float(q))
                } else {
                    None
                },
                None => None,
            },
            None => {
                proof {
                    reveal_with_fuel(pow10, 7);
                }
                let m: i128 = (*i as i128) * 1_000_000;
                let above: bool = match mp.value_min {
                    Some(lo) => lo.micros as i128 <= m,
                    None => true,
                };
                let below: bool = match mp.value_max {
                    Some(hi) => m <= hi.micros as i128,
                    None => true,
                };
                if above && below {
                    Some(PayloadValueType::Int(*i))
                } else {
                    None
                }
            },
        },
        ValueType::Float(f) => {
            let scaled: Option<Scaled> = match mp.scale_factor {
                Some(scale) => f.scale_by(scale),
                None => Some(*f),
            };
            match scaled {
                Some(q) => if q.is_within(&mp.value_min, &mp.value_max) {
                    Some(PayloadValueType::Float(q))
                } else {
                    None
                },
                None => None,
            }
        },
        ValueType::Boolean(b) => Some(
            PayloadValueType::String(
                if *b {
                    String::from_str("true")
                } else {
                    String::from_str("false")
                },
            ),
        ),
        ValueType::Array(_) => None,
        ValueType::Pad => Some(PayloadValueType::Null),
    }
}

/// Adds to a discovery message what the kind of the reading decides.
fn apply_reading(c: HAConfigPayload, pd: &PointData, mp: &MonitoredPoint, val: &ValueType) -> (r:
    HAConfigPayload)
    ensures
        r@ == config_for_reading(c@, *pd, *mp, *val),
{
    let mut c = c;
    match val {
        ValueType::Integer(_) => {
            c.native_uom = if mp.uom.is_some() {
                copy_opt(&mp.uom)
            } else {
                copy_opt(&pd.units)
            };
            if mp.scale_factor.is_some() {
                c.suggested_display_precision = if mp.precision.is_some() {
                    mp.precision
                } else {
                    Some(DEFAULT_DISPLAY_PRECISION)
                };
            }
        },
        ValueType::Float(_) => {
            c.native_uom = if mp.uom.is_some() {
                copy_opt(&mp.uom)
            } else {
                copy_opt(&pd.units)
            };
            c.suggested_display_precision = if mp.precision.is_some() {
                mp.precision
            } else {
                Some(DEFAULT_DISPLAY_PRECISION)
            };
            match &pd.literal {
                Some(l) => match &l.label {
                    Some(label) => {
                        c.name = label.clone();
                    },
                    None => {},
                },
                None => {},
            }
        },
        _ => {},
    }
    c
}

/// Builds the state message of an accepted reading.
fn state_of(
    value: PayloadValueType,
    pd: &PointData,
    val: &ValueType,
    now: i64,
    Ghost(mp): Ghost<MonitoredPoint>,
) -> (r: StatePayload)
    requires
        value@ == published_value(*val, mp),
    ensures
        r@ == state_for_reading(*pd, mp, *val, now),
{
    let mut s = StatePayload::empty(now);
    s.value = value;
    match val {
        ValueType::Float(_) => match &pd.literal {
            Some(l) => {
                s.label = copy_opt(&l.label);
                s.description = copy_opt(&l.description);
                s.notes = copy_opt(&l.notes);
            },
            None => {},
        },
        _ => {},
    }
    s
}

/// Adds to a discovery message what a writable point announces.
fn apply_write_mode(c: HAConfigPayload, sn: &str, mp: &MonitoredPoint) -> (r: HAConfigPayload)
    ensures
        r@ == config_for_write(c@, sn@, *mp),
{
    let mut c = c;
    let model = mp.model.as_str();
    let point = mp.name.as_str();
    match mp.write_mode {
        Access::ReadWrite => {
            c.command_topic = Some(command_topic(sn, model, point));
            match &mp.input_type {
                Some(InputType::Select(options)) => {
                    c.options = Some(copy_strings(options));
                    c.entity_category = Some(EntityCategory::Config);
                    c.entity_id = entity_id("select", model, point);
                },
                Some(InputType::Switch(sw)) => {
                    c.payload_on = Some(sw.on.clone());
                    c.payload_off = Some(sw.off.clone());
                    c.entity_category = Some(EntityCategory::Config);
                    c.entity_id = entity_id("switch", model, point);
                },
                Some(InputType::Button(press)) => {
                    c.payload_press = Some(press.clone());
                    c.entity_category = Some(EntityCategory::Config);
                    c.entity_id = entity_id("button", model, point);
                },
                Some(InputType::Number(num)) => {
                    c.min = Some(num.min);
                    c.max = Some(num.max);
                    c.step = num.step;
                    c.mode = copy_opt(&num.mode);
                    c.entity_category = Some(EntityCategory::Config);
                    c.entity_id = entity_id("number", model, point);
                },
                None => {},
            }
        },
        Access::ReadOnly => {},
    }
    c
}

/// The kind of entity under which a point is announced.
fn kind_of(mp: &MonitoredPoint) -> (r: &'static str)
    ensures
        r@ == entity_kind(*mp),
{
    match mp.write_mode {
        Access::ReadWrite => match &mp.input_type {
            Some(InputType::Select(_)) => "select",
            Some(InputType::Switch(_)) => "switch",
            Some(InputType::Button(_)) => "button",
            Some(InputType::Number(_)) => "number",
            None => "sensor",
        },
        Access::ReadOnly => "sensor",
    }
}

/// Completes the pair of messages of a point.
fn finish(c: HAConfigPayload, state: StatePayload, unit: &SunSpecUnit, mp: &MonitoredPoint) -> (r:
    CompoundPayload)
    ensures
        r@ == finished_payload(c@, state@, *unit, *mp),
{
    let sn = unit.serial_number.as_str();
    let model = mp.model.as_str();
    let point = mp.name.as_str();
    let mut config = apply_write_mode(c, sn, mp);
    let topic = state_topic(sn, model, point);
    config.state_topic = topic.clone();
    CompoundPayload {
        config,
        config_topic: config_topic(kind_of(mp), sn, model, point),
        state,
        state_topic: topic,
    }
}

/// Builds the identifier of one state of an enumerated point:
/// `{serial}.{model}.{point}.{state}`.
pub fn state_unique_id(sn: &str, model: &str, point: &str, state: &str) -> (r: String)
    ensures
        r@ == unique_id_text(sn@, model@, point@) + "."@ + state@,
        state_free_of_dots(sn@, model@, point@) ==> split_unique(r@) == Some(
            (sn@, model@, point@, state@),
        ),
{
    let mut id = unique_id(sn, model, point);
    id.append(".");
    id.append(state);
    proof {
        if state_free_of_dots(sn@, model@, point@) {
            lemma_state_unique_id_splits(sn@, model@, point@, state@);
        }
    }
    id
}

/// Builds the pair of messages of one state of an enumerated point.
fn flag(base: &HAConfigPayload, sn: &str, model: &str, point: &str, state: &str, on: bool, now: i64) -> (r:
    CompoundPayload)
    ensures
        r@ == flag_payload(base@, sn@, model@, point@, state@, on, now),
{
    let name = flag_name(point, state);
    let topic = state_topic(sn, model, name.as_str());
    let mut config = base.duplicate();
    config.unique_id = state_unique_id(sn, model, point, state);
    config.entity_id = entity_id("binary_sensor", model, name.as_str());
    config.name = flag_label(model, point, state);
    config.state_topic = topic.clone();
    config.payload_on = Some(String::from_str("on"));
    config.payload_off = Some(String::from_str("off"));
    let mut st = StatePayload::empty(now);
    st.value = PayloadValueType::String(
        if on {
            String::from_str("on")
        } else {
            String::from_str("off")
        },
    );
    CompoundPayload {
        config,
        config_topic: config_topic("binary_sensor", sn, model, name.as_str()),
        state: st,
        state_topic: topic,
    }
}

/// Splits the identifier of one state of an enumerated point into its parts.
pub fn split_unique_id<'a>(u: &'a str) -> (r: Option<(&'a str, &'a str, &'a str, &'a str)>)
    ensures
        match r {
            Some((sn, model, point, state)) => split_unique(u@) == Some(
                (sn@, model@, point@, state@),
            ),
            None => split_unique(u@) is None,
        },
{
    match split_once(u, '.') {
        Some((sn, r1)) => match split_once(r1, '.') {
            Some((model, r2)) => match split_once(r2, '.') {
                Some((point, state)) => Some((sn, model, point, state)),
                None => None,
            },
            None => None,
        },
        None => None,
    }
}

/// The contents of a list with one more payload are the contents of the
/// list with the content of that payload added.
proof fn lemma_views_push(v: Seq<CompoundPayload>, p: CompoundPayload)
    ensures
        compound_views(v.push(p)) == compound_views(v).push(p@),
{
    assert(compound_views(v.push(p)) =~= compound_views(v).push(p@));
}

/// One more state that is set adds its `on` message at the end.
proof fn lemma_on_payloads_step(
    base: HAConfigView,
    sn: Seq<char>,
    model: Seq<char>,
    point: Seq<char>,
    states: Seq<String>,
    i: int,
    now: i64,
)
    requires
        0 <= i < states.len(),
    ensures
        on_payloads(base, sn, model, point, states.take(i + 1), now) == on_payloads(
            base,
            sn,
            model,
            point,
            states.take(i),
            now,
        ).push(flag_payload(base, sn, model, point, states[i]@, true, now)),
{
    assert(on_payloads(base, sn, model, point, states.take(i + 1), now) =~= on_payloads(
        base,
        sn,
        model,
        point,
        states.take(i),
        now,
    ).push(flag_payload(base, sn, model, point, states[i]@, true, now)));
}

/// One more stale identifier adds its `off` message at the end, where it
/// names a state, and nothing where it does not.
proof fn lemma_off_payloads_step(base: HAConfigView, stale: Seq<String>, j: int, now: i64)
    requires
        0 <= j < stale.len(),
    ensures
        off_payloads(base, stale.take(j + 1), now) == match split_unique(stale[j]@) {
            Some((sn, model, point, state)) => off_payloads(base, stale.take(j), now).push(
                flag_payload(base, sn, model, point, state, false, now),
            ),
            None => off_payloads(base, stale.take(j), now),
        },
{
    assert(stale.take(j + 1).drop_last() =~= stale.take(j));
    assert(stale.take(j + 1).last() == stale[j]);
}

/// Builds the `on` messages of an enumerated reading.
fn on_flags(base: &HAConfigPayload, sn: &str, model: &str, point: &str, states: &Vec<String>, now: i64) -> (r:
    Vec<CompoundPayload>)
    ensures
        compound_views(r@) == on_payloads(base@, sn@, model@, point@, states@, now),
{
    let mut out: Vec<CompoundPayload> = Vec::new();
    let n: usize = states.len();
    let mut i: usize = 0;
    assert(compound_views(out@) =~= on_payloads(
        base@,
        sn@,
        model@,
        point@,
        states@.take(0),
        now,
    ));
    while i < n
        invariant
            n == states@.len(),
            i <= n,
            compound_views(out@) == on_payloads(
                base@,
                sn@,
                model@,
                point@,
                states@.take(i as int),
                now,
            ),
        decreases n - i,
    {
        let p = flag(base, sn, model, point, states[i].as_str(), true, now);
        proof {
            lemma_views_push(out@, p);
            lemma_on_payloads_step(base@, sn@, model@, point@, states@, i as int, now);
        }
        out.push(p);
        i = i + 1;
    }
    assert(states@.take(n as int) =~= states@);
    out
}

/// Adds the `off` messages of an enumerated reading to its `on` messages.
fn add_off_flags(out: &mut Vec<CompoundPayload>, base: &HAConfigPayload, stale: &Vec<String>, now: i64)
    ensures
        compound_views(final(out)@) == compound_views(old(out)@) + off_payloads(
            base@,
            stale@,
            now,
        ),
{
    let ghost ons = compound_views(out@);
    let m: usize = stale.len();
    let mut j: usize = 0;
    assert(compound_views(out@) =~= ons + off_payloads(base@, stale@.take(0), now));
    while j < m
        invariant
            m == stale@.len(),
            j <= m,
            compound_views(out@) == ons + off_payloads(base@, stale@.take(j as int), now),
        decreases m - j,
    {
        proof {
            lemma_off_payloads_step(base@, stale@, j as int, now);
        }
        match split_unique_id(stale[j].as_str()) {
            Some((s, md, pt, st)) => {
                let p = flag(base, s, md, pt, st, false, now);
                proof {
                    lemma_views_push(out@, p);
                    assert((ons + off_payloads(base@, stale@.take(j as int), now)).push(p@) =~= ons
                        + off_payloads(base@, stale@.take(j as int), now).push(p@));
                }
                out.push(p);
            },
            None => {},
        }
        j = j + 1;
    }
    assert(stale@.take(m as int) =~= stale@);
}

/// Builds the messages of an enumerated reading.
fn flag_payloads(
    base: &HAConfigPayload,
    unit: &SunSpecUnit,
    mp: &MonitoredPoint,
    states: &Vec<String>,
    stale: &Vec<String>,
    now: i64,
) -> (r: Vec<CompoundPayload>)
    ensures
        compound_views(r@) == on_payloads(
            base@,
            unit.serial_number@,
            mp.model@,
            mp.name.text(),
            states@,
            now,
        ) + off_payloads(base@, stale@, now),
{
    let mut out = on_flags(
        base,
        unit.serial_number.as_str(),
        mp.model.as_str(),
        mp.name.as_str(),
        states,
        now,
    );
    add_off_flags(&mut out, base, stale, now);
    out
}

/// Turns one evaluation of a point into the messages to publish.
///
/// `val` is what the read brought back and `point_data` what the model says
/// of the point; `stale` holds the identifiers of the states of an
/// enumerated point that were reported `on` before and are no longer set;
/// `now` is the time of the read in seconds since the epoch.
pub fn generate_payloads(
    unit: &SunSpecUnit,
    point_data: Option<&PointData>,
    monitored_point: &MonitoredPoint,
    val: Option<&ValueType>,
    stale: &Vec<String>,
    now: i64,
) -> (r: Vec<CompoundPayload>)
    ensures
        compound_views(r@) == expected_payloads(
            *unit,
            point_data,
            *monitored_point,
            val,
            stale@,
            now,
        ),
{
    let base = base_config(unit, monitored_point);
    match (val, point_data) {
        (Some(v), Some(pd)) => match v {
            ValueType::Array(states) => flag_payloads(
                &base,
                unit,
                monitored_point,
                states,
                stale,
                now,
            ),
            _ => match reading_value(v, monitored_point) {
                Some(value) => {
                    let config = apply_reading(base, pd, monitored_point, v);
                    let state = state_of(value, pd, v, now, Ghost(*monitored_point));
                    let p = finish(config, state, unit, monitored_point);
                    let mut out: Vec<CompoundPayload> = Vec::new();
                    out.push(p);
                    assert(compound_views(out@) =~= seq![p@]);
                    out
                },
                None => {
                    let out: Vec<CompoundPayload> = Vec::new();
                    assert(compound_views(out@) =~= Seq::<CompoundView>::empty());
                    out
                },
            },
        },
        _ => {
            let p = finish(base, StatePayload::empty(now), unit, monitored_point);
            let mut out: Vec<CompoundPayload> = Vec::new();
            out.push(p);
            assert(compound_views(out@) =~= seq![p@]);
            out
        },
    }
}

} // verus!
