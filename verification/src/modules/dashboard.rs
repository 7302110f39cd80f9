//! How the dashboard sorts devices and names their values.

use vstd::prelude::*;
use vstd::string::*;
use crate::payload::{PayloadValueType, PayloadValueView};
use crate::text::{
    contains, contains_text, decimal_text, lowercase_of, str_eq, to_lowercase, u64_to_string,
};

verus! {

/// The class of device that a model belongs to.
#[derive(Clone, Copy, Debug, PartialEq, Eq, Structural)]
pub enum DeviceType {
    Inverter,
    /// Solar inputs and string combiners.
    PVLink,
    Battery,
    Unknown,
}

impl Default for DeviceType {
    fn default() -> (r: DeviceType)
        ensures
            r == DeviceType::Unknown,
    {
        DeviceType::Unknown
    }
}

/// How grave an alert is.
#[derive(Clone, Copy, Debug, PartialEq, Eq, Structural)]
pub enum AlertSeverity {
    Info,
    Warning,
    Error,
    Critical,
}

/// The kind of a quick control.
#[derive(Clone, Copy, Debug, PartialEq, Eq, Structural)]
pub enum ControlType {
    Select,
    Switch,
    Number,
    Button,
}

/// A control that the dashboard offers for one point.
#[derive(Clone, Debug)]
pub struct QuickControl {
    pub id: String,
    pub name: String,
    pub control_type: ControlType,
    pub current_value: String,
    /// The options of a selection.
    pub options: Option<Vec<String>>,
    pub target_serial: String,
    pub model_id: u16,
    pub point_name: String,
}

/// The class of the model `model_id`, by its number alone.
pub open spec fn class_of_model(model_id: u16) -> DeviceType {
    if 101 <= model_id <= 103 || 111 <= model_id <= 113 || model_id == 64208 {
        DeviceType::Inverter
    } else if 802 <= model_id <= 804 || model_id == 64209 {
        DeviceType::Battery
    } else if model_id == 64251 || 401 <= model_id <= 404 {
        DeviceType::PVLink
    } else {
        DeviceType::Unknown
    }
}

/// The class of a device, given the number of a model it carries and the
/// model's name in lower case. The beacon of the system is no device of the
/// dashboard, whatever its model.
pub open spec fn device_type_of(model_id: u16, lowered: Seq<char>) -> DeviceType {
    if contains_text(lowered, "rebus"@) || contains_text(lowered, "beacon"@) {
        DeviceType::Unknown
    } else {
        class_of_model(model_id)
    }
}

/// Classifies a device by the number of a model it carries and the model's
/// name in lower case.
pub fn classify_lowered(model_id: u16, lowered: &str) -> (r: DeviceType)
    ensures
        r == device_type_of(model_id, lowered@),
{
    if contains(lowered, "rebus") || contains(lowered, "beacon") {
        return DeviceType::Unknown;
    }
    if (101 <= model_id && model_id <= 103) || (111 <= model_id && model_id <= 113) || model_id
        == 64208 {
        DeviceType::Inverter
    } else if (802 <= model_id && model_id <= 804) || model_id == 64209 {
        DeviceType::Battery
    } else if model_id == 64251 || (401 <= model_id && model_id <= 404) {
        DeviceType::PVLink
    } else {
        DeviceType::Unknown
    }
}

/// Classifies a device by the number and the name of a model it carries.
/// The name is taken in lower case, as the standard library gives it.
pub fn classify_device_type(model_id: u16, model_name: &str) -> (r: DeviceType)
    ensures
        r == device_type_of(model_id, lowercase_of(model_name@)),
{
    let lowered = to_lowercase(model_name);
    classify_lowered(model_id, lowered.as_str())
}

/// `{serial}.{model}.{point}`: the key under which the latest value of a
/// point is kept.
pub open spec fn live_value_key_text(serial: Seq<char>, model_id: u16, point: Seq<char>) -> Seq<
    char,
> {
    serial + "."@ + decimal_text(model_id as nat) + "."@ + point
}

/// Builds the key under which the latest value of a point is kept.
pub fn live_value_key(serial: &str, model_id: u16, point: &str) -> (r: String)
    ensures
        r@ == live_value_key_text(serial@, model_id, point@),
{
    let mut r = String::from_str(serial);
    r.append(".");
    r.append(u64_to_string(model_id as u64).as_str());
    r.append(".");
    r.append(point);
    r
}

/// The latest value of one point.
#[derive(Clone, Debug)]
pub struct LiveValue {
    pub serial_number: String,
    pub model_id: u16,
    pub model_name: String,
    pub point_name: String,
    pub value: PayloadValueType,
    /// When the value was stored, in seconds since the epoch.
    pub last_updated: i64,
}

/// The content of a [`LiveValue`].
pub struct LiveValueView {
    pub serial_number: Seq<char>,
    pub model_id: u16,
    pub model_name: Seq<char>,
    pub point_name: Seq<char>,
    pub value: PayloadValueView,
    pub last_updated: i64,
}

impl View for LiveValue {
    type V = LiveValueView;

    open spec fn view(&self) -> LiveValueView {
        LiveValueView {
            serial_number: self.serial_number@,
            model_id: self.model_id,
            model_name: self.model_name@,
            point_name: self.point_name@,
            value: self.value@,
            last_updated: self.last_updated,
        }
    }
}

/// The contents of a list of latest values.
pub open spec fn live_views(v: Seq<LiveValue>) -> Seq<LiveValueView> {
    v.map_values(|x: LiveValue| x@)
}

/// Whether a latest value is that of the given point of the given device.
pub open spec fn is_value_of(v: LiveValueView, serial: Seq<char>, model_id: u16, point: Seq<char>) -> bool {
    v.serial_number == serial && v.model_id == model_id && v.point_name == point
}

/// The first place at or after `from` that holds the value of the given
/// point.
pub open spec fn value_index(
    values: Seq<LiveValueView>,
    serial: Seq<char>,
    model_id: u16,
    point: Seq<char>,
    from: int,
) -> Option<int>
    decreases values.len() - from,
{
    if from < 0 || from >= values.len() {
        None
    } else if is_value_of(values[from], serial, model_id, point) {
        Some(from)
    } else {
        value_index(values, serial, model_id, point, from + 1)
    }
}

/// Finds the place that holds the value of the given point.
pub fn find_live_value(values: &Vec<LiveValue>, serial: &str, model_id: u16, point: &str) -> (r:
    Option<usize>)
    ensures
        match r {
            Some(i) => value_index(live_views(values@), serial@, model_id, point@, 0) == Some(
                i as int,
            ) && i < values@.len(),
            None => value_index(live_views(values@), serial@, model_id, point@, 0) is None,
        },
{
    let n: usize = values.len();
    let mut i: usize = 0;
    while i < n
        invariant
            n == values@.len(),
            i <= n,
            value_index(live_views(values@), serial@, model_id, point@, 0) == value_index(
                live_views(values@),
                serial@,
                model_id,
                point@,
                i as int,
            ),
        decreases n - i,
    {
        let v = &values[i];
        assert(live_views(values@)[i as int] == v@);
        if v.model_id == model_id && str_eq(v.serial_number.as_str(), serial) && str_eq(
            v.point_name.as_str(),
            point,
        ) {
            return Some(i);
        }
        i = i + 1;
    }
    None
}

/// Keeps the latest value of a point: it takes the place of the value kept
/// for that point so far, or joins the list at its end where none was kept.
pub fn store_live_value(
    values: &mut Vec<LiveValue>,
    serial_number: String,
    model_id: u16,
    model_name: String,
    point_name: String,
    value: PayloadValueType,
    now: i64,
)
    ensures
        ({
            let kept = LiveValueView {
                serial_number: serial_number@,
                model_id,
                model_name: model_name@,
                point_name: point_name@,
                value: value@,
                last_updated: now,
            };
            match value_index(live_views(old(values)@), serial_number@, model_id, point_name@, 0) {
                Some(i) => live_views(final(values)@) == live_views(old(values)@).update(i, kept),
                None => live_views(final(values)@) == live_views(old(values)@).push(kept),
            }
        }),
{
    let place = find_live_value(values, serial_number.as_str(), model_id, point_name.as_str());
    let live = LiveValue {
        serial_number,
        model_id,
        model_name,
        point_name,
        value,
        last_updated: now,
    };
    let ghost before = values@;
    match place {
        Some(i) => {
            values.set(i, live);
            assert(live_views(values@) =~= live_views(before).update(i as int, live@));
        },
        None => {
            values.push(live);
            assert(live_views(values@) =~= live_views(before).push(live@));
        },
    }
}

/// The figure of a device's summary that a point feeds.
#[derive(Clone, Copy, Debug, PartialEq, Eq, Structural)]
pub enum DeviceField {
    Power,
    Voltage,
    Current,
    Temperature,
    /// The energy counted over the device's life.
    Energy,
    StateOfCharge,
    StateOfHealth,
    Frequency,
    State,
    OperatingMode,
    /// The point feeds no figure.
    Unused,
}

/// The figure that the point of the given name, in lower case, feeds.
pub open spec fn device_field_of(lowered: Seq<char>) -> DeviceField {
    if lowered == "w"@ || lowered == "dcw"@ || lowered == "power"@ || lowered == "p"@ {
        DeviceField::Power
    } else if lowered == "dcv"@ || lowered == "v"@ || lowered == "phvpha"@ || lowered
        == "phvphb"@ || lowered == "vin"@ {
        DeviceField::Voltage
    } else if lowered == "dca"@ || lowered == "a"@ || lowered == "iin"@ {
        DeviceField::Current
    } else if lowered == "tmp"@ || lowered == "tmpcab"@ || lowered == "tmpsnk"@ || lowered
        == "t"@ {
        DeviceField::Temperature
    } else if lowered == "wh"@ || lowered == "dcwh"@ || lowered == "e"@ || lowered == "whout"@ {
        DeviceField::Energy
    } else if lowered == "soc"@ {
        DeviceField::StateOfCharge
    } else if lowered == "soh"@ {
        DeviceField::StateOfHealth
    } else if lowered == "hz"@ {
        DeviceField::Frequency
    } else if lowered == "st"@ || lowered == "state"@ {
        DeviceField::State
    } else if lowered == "sysmd"@ {
        DeviceField::OperatingMode
    } else {
        DeviceField::Unused
    }
}

/// Says which figure of a device's summary a point feeds, given the
/// point's name in lower case.
pub fn field_of_lowered(lowered: &str) -> (r: DeviceField)
    ensures
        r == device_field_of(lowered@),
{
    if str_eq(lowered, "w") || str_eq(lowered, "dcw") || str_eq(lowered, "power") || str_eq(
        lowered,
        "p",
    ) {
        DeviceField::Power
    } else if str_eq(lowered, "dcv") || str_eq(lowered, "v") || str_eq(lowered, "phvpha")
        || str_eq(lowered, "phvphb") || str_eq(lowered, "vin") {
        DeviceField::Voltage
    } else if str_eq(lowered, "dca") || str_eq(lowered, "a") || str_eq(lowered, "iin") {
        DeviceField::Current
    } else if str_eq(lowered, "tmp") || str_eq(lowered, "tmpcab") || str_eq(lowered, "tmpsnk")
        || str_eq(lowered, "t") {
        DeviceField::Temperature
    } else if str_eq(lowered, "wh") || str_eq(lowered, "dcwh") || str_eq(lowered, "e") || str_eq(
        lowered,
        "whout",
    ) {
        DeviceField::Energy
    } else if str_eq(lowered, "soc") {
        DeviceField::StateOfCharge
    } else if str_eq(lowered, "soh") {
        DeviceField::StateOfHealth
    } else if str_eq(lowered, "hz") {
        DeviceField::Frequency
    } else if str_eq(lowered, "st") || str_eq(lowered, "state") {
        DeviceField::State
    } else if str_eq(lowered, "sysmd") {
        DeviceField::OperatingMode
    } else {
        DeviceField::Unused
    }
}

/// Says which figure of a device's summary a point feeds.
pub fn update_device_field(point_name: &str) -> (r: DeviceField)
    ensures
        r == device_field_of(lowercase_of(point_name@)),
{
    let lowered = to_lowercase(point_name);
    field_of_lowered(lowered.as_str())
}

/// The part that a point plays in the flow of power.
#[derive(Clone, Copy, Debug, PartialEq, Eq, Structural)]
pub enum FlowRole {
    /// Power that a solar input delivers.
    Solar,
    /// Power that the storage takes or gives.
    Battery,
    /// Power that crosses the grid connection; export counts as positive.
    Grid,
    /// The point plays no part.
    Unused,
}

/// The part that a point plays in the flow of power, given the class of
/// its device and its name in lower case.
pub open spec fn flow_role_of(device: DeviceType, lowered: Seq<char>) -> FlowRole {
    if device == DeviceType::PVLink && lowered == "dcw"@ {
        FlowRole::Solar
    } else if device == DeviceType::Battery && lowered == "w"@ {
        FlowRole::Battery
    } else if lowered == "px1"@ || lowered == "px2"@ {
        FlowRole::Grid
    } else {
        FlowRole::Unused
    }
}

/// Says which part a point plays in the flow of power.
pub fn flow_role(device: DeviceType, lowered: &str) -> (r: FlowRole)
    ensures
        r == flow_role_of(device, lowered@),
{
    let solar: bool = match device {
        DeviceType::PVLink => str_eq(lowered, "dcw"),
        _ => false,
    };
    let battery: bool = match device {
        DeviceType::Battery => str_eq(lowered, "w"),
        _ => false,
    };
    if solar {
        FlowRole::Solar
    } else if battery {
        FlowRole::Battery
    } else if str_eq(lowered, "px1") || str_eq(lowered, "px2") {
        FlowRole::Grid
    } else {
        FlowRole::Unused
    }
}

/// The energy counter that a point is.
#[derive(Clone, Copy, Debug, PartialEq, Eq, Structural)]
pub enum EnergyRole {
    SolarYield,
    BatteryCharge,
    BatteryDischarge,
    GridExport,
    GridImport,
    /// The point counts nothing that the dashboard sums up.
    Unused,
}

/// Whether a model is one of those that meter the grid connection.
pub open spec fn is_grid_meter(model_id: u16) -> bool {
    model_id == 64204 || model_id == 10
}

/// The energy counter that a point is, given the class of its device, its
/// model and its name in lower case.
pub open spec fn energy_role_of(device: DeviceType, model_id: u16, lowered: Seq<char>) -> EnergyRole {
    if device == DeviceType::Inverter && lowered == "wh"@ {
        EnergyRole::SolarYield
    } else if device == DeviceType::Battery && lowered == "whin"@ {
        EnergyRole::BatteryCharge
    } else if device == DeviceType::Battery && lowered == "whout"@ {
        EnergyRole::BatteryDischarge
    } else if lowered == "whin"@ && is_grid_meter(model_id) {
        EnergyRole::GridExport
    } else if lowered == "whout"@ && is_grid_meter(model_id) {
        EnergyRole::GridImport
    } else {
        EnergyRole::Unused
    }
}

/// Says which energy counter a point is.
pub fn energy_role(device: DeviceType, model_id: u16, lowered: &str) -> (r: EnergyRole)
    ensures
        r == energy_role_of(device, model_id, lowered@),
{
    let inverter: bool = match device {
        DeviceType::Inverter => true,
        _ => false,
    };
    let battery: bool = match device {
        DeviceType::Battery => true,
        _ => false,
    };
    let grid: bool = model_id == 64204 || model_id == 10;
    let energy_in: bool = str_eq(lowered, "whin");
    let energy_out: bool = str_eq(lowered, "whout");
    if inverter && str_eq(lowered, "wh") {
        EnergyRole::SolarYield
    } else if battery && energy_in {
        EnergyRole::BatteryCharge
    } else if battery && energy_out {
        EnergyRole::BatteryDischarge
    } else if energy_in && grid {
        EnergyRole::GridExport
    } else if energy_out && grid {
        EnergyRole::GridImport
    } else {
        EnergyRole::Unused
    }
}

/// The line of the performance chart that a stored value belongs to.
#[derive(Clone, Copy, Debug, PartialEq, Eq, Structural)]
pub enum HistorySeries {
    Solar,
    Battery,
    /// Power across the grid connection, stored with export as positive and
    /// charted with export as negative.
    Grid,
    /// The value is not charted.
    Ignored,
}

/// The line that a stored value belongs to, given its identifier in lower
/// case. The output of the inverter stands for the solar yield; the input
/// of the solar links is passed over, so that nothing is counted twice.
pub open spec fn history_series_of(lowered: Seq<char>) -> HistorySeries {
    if contains_text(lowered, ".102.w"@) {
        HistorySeries::Solar
    } else if contains_text(lowered, ".64251.dcw"@) {
        HistorySeries::Ignored
    } else if contains_text(lowered, ".802.w"@) {
        HistorySeries::Battery
    } else if contains_text(lowered, ".64204.px"@) {
        HistorySeries::Grid
    } else {
        HistorySeries::Ignored
    }
}

/// Says which line of the performance chart a stored value belongs to.
pub fn history_series(lowered: &str) -> (r: HistorySeries)
    ensures
        r == history_series_of(lowered@),
{
    if contains(lowered, ".102.w") {
        HistorySeries::Solar
    } else if contains(lowered, ".64251.dcw") {
        HistorySeries::Ignored
    } else if contains(lowered, ".802.w") {
        HistorySeries::Battery
    } else if contains(lowered, ".64204.px") {
        HistorySeries::Grid
    } else {
        HistorySeries::Ignored
    }
}

/// Seconds in a day.
pub const SECONDS_PER_DAY: i64 = 86_400;

/// The span of time that the performance chart shows, and the width of its
/// buckets.
#[derive(Clone, Copy, Debug, PartialEq, Eq, Structural)]
pub struct HistoryWindow {
    /// First second of the span, in seconds since the epoch.
    pub start: i64,
    /// Last second of the span.
    pub end: i64,
    /// Width of a bucket in minutes.
    pub interval_minutes: i64,
}

/// The periods that the performance chart offers.
#[derive(Clone, Copy, Debug, PartialEq, Eq, Structural)]
pub enum Period {
    Today,
    Yesterday,
    Week,
    Month,
    Year,
}

/// The period that a request names. Whatever is not known means today.
pub open spec fn period_of(name: Seq<char>) -> Period {
    if name == "yesterday"@ {
        Period::Yesterday
    } else if name == "7days"@ || name == "7_days"@ {
        Period::Week
    } else if name == "30days"@ || name == "30_days"@ {
        Period::Month
    } else if name == "12months"@ || name == "12_months"@ {
        Period::Year
    } else {
        Period::Today
    }
}

/// Reads the period that a request names.
pub fn parse_period(name: &str) -> (r: Period)
    ensures
        r == period_of(name@),
{
    if str_eq(name, "yesterday") {
        Period::Yesterday
    } else if str_eq(name, "7days") || str_eq(name, "7_days") {
        Period::Week
    } else if str_eq(name, "30days") || str_eq(name, "30_days") {
        Period::Month
    } else if str_eq(name, "12months") || str_eq(name, "12_months") {
        Period::Year
    } else {
        Period::Today
    }
}

/// The midnight that begins the day of the moment `t`.
pub open spec fn day_start(t: int) -> int {
    t - t % (SECONDS_PER_DAY as int)
}

/// The span of a period, as whole numbers: its first and last second and
/// the width of its buckets in minutes.
///
/// `tz_offset` is the distance of the viewer's clock from universal time in
/// minutes, counted positive to the west. Today and yesterday are days of
/// the viewer's clock, from midnight to midnight; the longer periods reach
/// back from now by 7, 30 and 365 days.
pub open spec fn window_of(period: Period, now: int, tz_offset: int) -> (int, int, int) {
    let shift = tz_offset * 60;
    let local_now = now - shift;
    match period {
        Period::Today => (day_start(local_now) + shift, now, 5),
        Period::Yesterday => (
            day_start(local_now - SECONDS_PER_DAY) + shift,
            day_start(local_now) + shift,
            5,
        ),
        Period::Week => (now - 7 * SECONDS_PER_DAY, now, 60),
        Period::Month => (now - 30 * SECONDS_PER_DAY, now, 240),
        Period::Year => (now - 365 * SECONDS_PER_DAY, now, 1440),
    }
}

/// The midnight that begins the day of the moment `t`.
fn floor_day(t: i128) -> (r: i128)
    requires
        -0x1_0000_0000_0000_0000 < t < 0x1_0000_0000_0000_0000,
    ensures
        r == day_start(t as int),
{
    if t >= 0 {
        t - t % 86_400
    } else {
        let back: i128 = (-t) % 86_400;
        if back == 0 {
            t
        } else {
            t - (86_400 - back)
        }
    }
}

/// Works out the span of time that the performance chart shows for a
/// period. `None` where the span leaves the range of 64-bit seconds.
pub fn history_window(period: Period, now: i64, tz_offset: i32) -> (r: Option<HistoryWindow>)
    ensures
        ({
            let (start, end, minutes) = window_of(period, now as int, tz_offset as int);
            if i64::MIN <= start <= i64::MAX && i64::MIN <= end <= i64::MAX {
                r == Some(
                    HistoryWindow { start: start as i64, end: end as i64, interval_minutes: minutes as i64 },
                )
            } else {
                r is None
            }
        }),
{
    let shift: i128 = (tz_offset as i128) * 60;
    let local_now: i128 = now as i128 - shift;
    let (start, end, minutes): (i128, i128, i64) = match period {
        Period::Today => (floor_day(local_now) + shift, now as i128, 5),
        Period::Yesterday => (
            floor_day(local_now - 86_400) + shift,
            floor_day(local_now) + shift,
            5,
        ),
        Period::Week => (now as i128 - 7 * 86_400, now as i128, 60),
        Period::Month => (now as i128 - 30 * 86_400, now as i128, 240),
        Period::Year => (now as i128 - 365 * 86_400, now as i128, 1440),
    };
    if start < i64::MIN as i128 || start > i64::MAX as i128 || end < i64::MIN as i128 || end
        > i64::MAX as i128 {
        None
    } else {
        Some(HistoryWindow { start: start as i64, end: end as i64, interval_minutes: minutes })
    }
}

/// The first second of the bucket that the moment `ts` falls into, for
/// buckets of `interval_minutes` minutes counted from the epoch. Moments
/// before the epoch are bucketed towards it.
pub open spec fn bucket_start(ts: int, interval_minutes: int) -> int {
    let width = interval_minutes * 60;
    if ts >= 0 {
        ts - ts % width
    } else {
        -((-ts) - (-ts) % width)
    }
}

/// Finds the bucket of a stored value. `None` for a value without a time,
/// which is stored as the moment zero, and for buckets without width.
pub fn bucket_of(ts: i64, interval_minutes: i64) -> (r: Option<i64>)
    ensures
        r == (if ts != 0 && interval_minutes > 0 {
            Some(bucket_start(ts as int, interval_minutes as int) as i64)
        } else {
            None
        }),
        r matches Some(b) ==> (if ts > 0 {
            0 <= b <= ts
        } else {
            ts <= b <= 0
        }),
{
    if ts == 0 || interval_minutes <= 0 {
        return None;
    }
    let width: i128 = (interval_minutes as i128) * 60;
    let magnitude: i128 = if ts >= 0 {
        ts as i128
    } else {
        -(ts as i128)
    };
    let ghost m = magnitude as int;
    let ghost w = width as int;
    assert(0 <= m % w <= m) by (nonlinear_arith)
        requires
            m >= 0,
            w > 0,
    ;
    let whole: i128 = magnitude - magnitude % width;
    let b: i128 = if ts >= 0 {
        whole
    } else {
        -whole
    };
    Some(b as i64)
}

} // verus!
