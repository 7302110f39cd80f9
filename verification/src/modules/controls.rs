//! The points that an operator may set by hand, and the validation of such a
//! request.

use vstd::prelude::*;
use vstd::string::*;
use crate::modules::dashboard::{find_live_value, live_views, value_index, LiveValue, LiveValueView};
use crate::payload::{PayloadValueType, PayloadValueView};
use crate::text::copy_opt;
use crate::text::{
    decimal_text, i64_of, i64_to_string, parse_i64, parse_u8, signed_text, split_first, split_once,
    str_eq, u64_to_string, u8_of,
};

verus! {

/// One named value of an enumerated control point.
#[derive(Clone, Debug)]
pub struct ControlSymbol {
    pub name: String,
    pub value: i64,
}

/// A point that may be set by hand.
#[derive(Clone, Debug)]
pub struct ControlPointDef {
    pub model_id: u16,
    pub point_name: String,
    pub label: String,
    pub description: String,
    pub data_type: String,
    /// The values that the point takes, where it is enumerated.
    pub symbols: Option<Vec<ControlSymbol>>,
    pub units: Option<String>,
}

/// A request to set a point.
#[derive(Clone, Debug)]
pub struct WriteRequest {
    pub serial_number: String,
    pub model_id: u16,
    pub point_name: String,
    pub value: String,
}

/// The answer to a request to set a point.
#[derive(Clone, Debug)]
pub struct WriteResponse {
    pub success: bool,
    pub message: String,
}

/// The content of a [`ControlSymbol`].
pub struct ControlSymbolView {
    pub name: Seq<char>,
    pub value: i64,
}

/// The content of a [`ControlPointDef`].
pub struct ControlPointDefView {
    pub model_id: u16,
    pub point_name: Seq<char>,
    pub label: Seq<char>,
    pub description: Seq<char>,
    pub data_type: Seq<char>,
    pub symbols: Option<Seq<ControlSymbolView>>,
    pub units: Option<Seq<char>>,
}

impl View for ControlSymbol {
    type V = ControlSymbolView;

    open spec fn view(&self) -> ControlSymbolView {
        ControlSymbolView { name: self.name@, value: self.value }
    }
}

/// The contents of a list of symbols.
pub open spec fn symbol_views(v: Seq<ControlSymbol>) -> Seq<ControlSymbolView> {
    v.map_values(|s: ControlSymbol| s@)
}

impl View for ControlPointDef {
    type V = ControlPointDefView;

    open spec fn view(&self) -> ControlPointDefView {
        ControlPointDefView {
            model_id: self.model_id,
            point_name: self.point_name@,
            label: self.label@,
            description: self.description@,
            data_type: self.data_type@,
            symbols: match self.symbols {
                Some(s) => Some(symbol_views(s@)),
                None => None,
            },
            units: match self.units {
                Some(u) => Some(u@),
                None => None,
            },
        }
    }
}

/// The contents of a list of control points.
pub open spec fn def_views(v: Seq<ControlPointDef>) -> Seq<ControlPointDefView> {
    v.map_values(|d: ControlPointDef| d@)
}

/// An enumerated control point.
pub open spec fn enum_def(
    model_id: u16,
    point_name: Seq<char>,
    label: Seq<char>,
    description: Seq<char>,
    symbols: Seq<ControlSymbolView>,
) -> ControlPointDefView {
    ControlPointDefView {
        model_id,
        point_name,
        label,
        description,
        data_type: "enum16"@,
        symbols: Some(symbols),
        units: None,
    }
}

/// A control point that takes a share of the rated capacity.
pub open spec fn percent_def(
    model_id: u16,
    point_name: Seq<char>,
    label: Seq<char>,
    description: Seq<char>,
) -> ControlPointDefView {
    ControlPointDefView {
        model_id,
        point_name,
        label,
        description,
        data_type: "uint16"@,
        symbols: None,
        units: Some("%WHRtg"@),
    }
}

/// A named value.
pub open spec fn sym(name: Seq<char>, value: i64) -> ControlSymbolView {
    ControlSymbolView { name, value }
}

/// The points that may be set by hand: the operating mode of the system,
/// the switch of a solar input, and the reserve limits, the connection and
/// the inverter state of the storage.
pub open spec fn control_point_defs() -> Seq<ControlPointDefView> {
    seq![
        enum_def(
            64200,
            "SysMd"@,
            "System Operating Mode"@,
            "REbus System operational mode"@,
            seq![
                sym("SAFETY_SHUTDOWN"@, 0),
                sym("GRID_CONNECT"@, 1),
                sym("SELF_SUPPLY"@, 2),
                sym("CLEAN_BACKUP"@, 3),
                sym("PRIORITY_BACKUP"@, 4),
                sym("ARBITRAGE"@, 5),
                sym("FULL_EXPORT"@, 6),
            ],
        ),
        enum_def(
            64251,
            "Ena"@,
            "PV Link Enable"@,
            "Enable or Disable PV Link"@,
            seq![sym("DISABLE"@, 0), sym("ENABLE"@, 1)],
        ),
        percent_def(
            802,
            "SocRsvMax"@,
            "Max Reserve %"@,
            "Maximum reserve for storage as percentage"@,
        ),
        percent_def(
            802,
            "SoCRsvMin"@,
            "Min Reserve %"@,
            "Minimum reserve for storage as percentage"@,
        ),
        enum_def(
            802,
            "SetOp"@,
            "Battery Operation"@,
            "Connect or Disconnect battery bank"@,
            seq![sym("CONNECT"@, 1), sym("DISCONNECT"@, 2)],
        ),
        enum_def(
            802,
            "SetInvState"@,
            "Inverter State"@,
            "Set the inverter state"@,
            seq![
                sym("INVERTER_STOPPED"@, 1),
                sym("INVERTER_STANDBY"@, 2),
                sym("INVERTER_STARTED"@, 3),
            ],
        ),
    ]
}

/// Builds a named value.
fn symbol(name: &str, value: i64) -> (r: ControlSymbol)
    ensures
        r@ == sym(name@, value),
{
    ControlSymbol { name: String::from_str(name), value }
}

/// Builds an enumerated control point.
fn enumerated(model_id: u16, point_name: &str, label: &str, description: &str, symbols: Vec<ControlSymbol>) -> (r:
    ControlPointDef)
    ensures
        r@ == enum_def(model_id, point_name@, label@, description@, symbol_views(symbols@)),
{
    ControlPointDef {
        model_id,
        point_name: String::from_str(point_name),
        label: String::from_str(label),
        description: String::from_str(description),
        data_type: String::from_str("enum16"),
        symbols: Some(symbols),
        units: None,
    }
}

/// Builds a control point that takes a share of the rated capacity.
fn percent(model_id: u16, point_name: &str, label: &str, description: &str) -> (r: ControlPointDef)
    ensures
        r@ == percent_def(model_id, point_name@, label@, description@),
{
    ControlPointDef {
        model_id,
        point_name: String::from_str(point_name),
        label: String::from_str(label),
        description: String::from_str(description),
        data_type: String::from_str("uint16"),
        symbols: None,
        units: Some(String::from_str("%WHRtg")),
    }
}

/// The points that may be set by hand.
pub fn get_control_point_defs() -> (r: Vec<ControlPointDef>)
    ensures
        def_views(r@) == control_point_defs(),
{
    let mut modes: Vec<ControlSymbol> = Vec::new();
    modes.push(symbol("SAFETY_SHUTDOWN", 0));
    modes.push(symbol("GRID_CONNECT", 1));
    modes.push(symbol("SELF_SUPPLY", 2));
    modes.push(symbol("CLEAN_BACKUP", 3));
    modes.push(symbol("PRIORITY_BACKUP", 4));
    modes.push(symbol("ARBITRAGE", 5));
    modes.push(symbol("FULL_EXPORT", 6));
    assert(symbol_views(modes@) =~= control_point_defs()[0].symbols->0);
    let mut enable: Vec<ControlSymbol> = Vec::new();
    enable.push(symbol("DISABLE", 0));
    enable.push(symbol("ENABLE", 1));
    assert(symbol_views(enable@) =~= control_point_defs()[1].symbols->0);
    let mut operation: Vec<ControlSymbol> = Vec::new();
    operation.push(symbol("CONNECT", 1));
    operation.push(symbol("DISCONNECT", 2));
    assert(symbol_views(operation@) =~= control_point_defs()[4].symbols->0);
    let mut inverter: Vec<ControlSymbol> = Vec::new();
    inverter.push(symbol("INVERTER_STOPPED", 1));
    inverter.push(symbol("INVERTER_STANDBY", 2));
    inverter.push(symbol("INVERTER_STARTED", 3));
    assert(symbol_views(inverter@) =~= control_point_defs()[5].symbols->0);
    let mut defs: Vec<ControlPointDef> = Vec::new();
    defs.push(
        enumerated(
            64200,
            "SysMd",
            "System Operating Mode",
            "REbus System operational mode",
            modes,
        ),
    );
    defs.push(enumerated(64251, "Ena", "PV Link Enable", "Enable or Disable PV Link", enable));
    defs.push(
        percent(802, "SocRsvMax", "Max Reserve %", "Maximum reserve for storage as percentage"),
    );
    defs.push(
        percent(802, "SoCRsvMin", "Min Reserve %", "Minimum reserve for storage as percentage"),
    );
    defs.push(
        enumerated(
            802,
            "SetOp",
            "Battery Operation",
            "Connect or Disconnect battery bank",
            operation,
        ),
    );
    defs.push(
        enumerated(802, "SetInvState", "Inverter State", "Set the inverter state", inverter),
    );
    assert(def_views(defs@) =~= control_point_defs());
    defs
}

/// Why a request to set a point is refused.
#[derive(Clone, Copy, Debug, PartialEq, Eq, Structural)]
pub enum WriteRejection {
    /// The point is not among those that may be set by hand.
    NotControllable,
    /// The value is no whole number.
    NotAnInteger,
    /// The value is none of those that the point takes.
    InvalidSymbol,
    /// The value does not fit the 16 bits of the point.
    OutOfRange,
}

/// Whether a control point is the one that a request names.
pub open spec fn names_def(d: ControlPointDefView, model_id: u16, point_name: Seq<char>) -> bool {
    d.model_id == model_id && d.point_name == point_name
}

/// The first control point at or after `from` that a request names.
pub open spec fn first_def(
    defs: Seq<ControlPointDefView>,
    model_id: u16,
    point_name: Seq<char>,
    from: int,
) -> Option<int>
    decreases defs.len() - from,
{
    if from < 0 || from >= defs.len() {
        None
    } else if names_def(defs[from], model_id, point_name) {
        Some(from)
    } else {
        first_def(defs, model_id, point_name, from + 1)
    }
}

/// Whether one of the symbols stands for `value`.
pub open spec fn takes_value(symbols: Seq<ControlSymbolView>, value: i64) -> bool {
    exists|i: int| 0 <= i < symbols.len() && (#[trigger] symbols[i]).value == value
}

/// What becomes of a request to set a point: the number to write, or the
/// reason for which the request is refused. The checks are made in this
/// order: the point is one that may be set, the value is a whole number, it
/// is one that an enumerated point takes, and it fits a point of 16 bits.
pub open spec fn write_verdict(
    defs: Seq<ControlPointDefView>,
    model_id: u16,
    point_name: Seq<char>,
    value: Seq<char>,
) -> Result<i64, WriteRejection> {
    match first_def(defs, model_id, point_name, 0) {
        None => Err(WriteRejection::NotControllable),
        Some(i) => match i64_of(value) {
            None => Err(WriteRejection::NotAnInteger),
            Some(v) => if defs[i].symbols is Some && !takes_value(defs[i].symbols->0, v) {
                Err(WriteRejection::InvalidSymbol)
            } else if defs[i].data_type == "uint16"@ && !(0 <= v <= 65535) {
                Err(WriteRejection::OutOfRange)
            } else {
                Ok(v)
            },
        },
    }
}

/// Finds the first control point that a request names.
fn find_def(defs: &Vec<ControlPointDef>, model_id: u16, point_name: &str) -> (r: Option<usize>)
    ensures
        match r {
            Some(i) => first_def(def_views(defs@), model_id, point_name@, 0) == Some(i as int)
                && i < defs@.len(),
            None => first_def(def_views(defs@), model_id, point_name@, 0) is None,
        },
{
    let n: usize = defs.len();
    let mut i: usize = 0;
    while i < n
        invariant
            n == defs@.len(),
            i <= n,
            first_def(def_views(defs@), model_id, point_name@, 0) == first_def(
                def_views(defs@),
                model_id,
                point_name@,
                i as int,
            ),
        decreases n - i,
    {
        assert(def_views(defs@)[i as int] == defs@[i as int]@);
        if defs[i].model_id == model_id && str_eq(defs[i].point_name.as_str(), point_name) {
            return Some(i);
        }
        i = i + 1;
    }
    None
}

/// Whether one of the symbols stands for `value`.
fn has_value(symbols: &Vec<ControlSymbol>, value: i64) -> (r: bool)
    ensures
        r == takes_value(symbol_views(symbols@), value),
{
    let n: usize = symbols.len();
    let mut i: usize = 0;
    while i < n
        invariant
            n == symbols@.len(),
            i <= n,
            forall|j: int| 0 <= j < i ==> (#[trigger] symbol_views(symbols@)[j]).value != value,
        decreases n - i,
    {
        if symbols[i].value == value {
            assert(symbol_views(symbols@)[i as int].value == value);
            return true;
        }
        i = i + 1;
    }
    false
}

/// Validates a request to set a point against the points that may be set.
pub fn validate_write(defs: &Vec<ControlPointDef>, request: &WriteRequest) -> (r: Result<
    i64,
    WriteRejection,
>)
    ensures
        r == write_verdict(
            def_views(defs@),
            request.model_id,
            request.point_name@,
            request.value@,
        ),
{
    let i = match find_def(defs, request.model_id, request.point_name.as_str()) {
        Some(i) => i,
        None => {
            return Err(WriteRejection::NotControllable);
        },
    };
    let def = &defs[i];
    assert(def_views(defs@)[i as int] == def@);
    let v = match parse_i64(request.value.as_str()) {
        Some(v) => v,
        None => {
            return Err(WriteRejection::NotAnInteger);
        },
    };
    match &def.symbols {
        Some(symbols) => {
            if !has_value(symbols, v) {
                return Err(WriteRejection::InvalidSymbol);
            }
        },
        None => {},
    }
    if str_eq(def.data_type.as_str(), "uint16") && (v < 0 || v > 65535) {
        return Err(WriteRejection::OutOfRange);
    }
    Ok(v)
}

/// `Successfully set {point} to {value}`: the answer to a request that was
/// carried out.
pub open spec fn success_text(point_name: Seq<char>, value: i64) -> Seq<char> {
    "Successfully set "@ + point_name + " to "@ + signed_text(value as int)
}

/// `Point {model}.{point} is not a controllable point`: the answer to a
/// request for a point that may not be set.
pub open spec fn not_controllable_text(model_id: u16, point_name: Seq<char>) -> Seq<char> {
    "Point "@ + decimal_text(model_id as nat) + "."@ + point_name
        + " is not a controllable point"@
}

impl WriteResponse {
    /// The answer to a request that was carried out.
    pub fn success(point_name: &str, value: i64) -> (r: WriteResponse)
        ensures
            r.success,
            r.message@ == success_text(point_name@, value),
    {
        let mut m = String::from_str("Successfully set ");
        m.append(point_name);
        m.append(" to ");
        m.append(i64_to_string(value).as_str());
        WriteResponse { success: true, message: m }
    }

    /// The answer to a request for a point that may not be set.
    pub fn not_controllable(model_id: u16, point_name: &str) -> (r: WriteResponse)
        ensures
            !r.success,
            r.message@ == not_controllable_text(model_id, point_name@),
    {
        let mut m = String::from_str("Point ");
        m.append(u64_to_string(model_id as u64).as_str());
        m.append(".");
        m.append(point_name);
        m.append(" is not a controllable point");
        WriteResponse { success: false, message: m }
    }
}

impl ControlSymbol {
    /// A copy of the symbol.
    pub fn duplicate(&self) -> (r: ControlSymbol)
        ensures
            r@ == self@,
    {
        ControlSymbol { name: self.name.clone(), value: self.value }
    }
}

impl ControlPointDef {
    /// A copy of the control point.
    pub fn duplicate(&self) -> (r: ControlPointDef)
        ensures
            r@ == self@,
    {
        let symbols: Option<Vec<ControlSymbol>> = match &self.symbols {
            Some(list) => {
                let mut copy: Vec<ControlSymbol> = Vec::new();
                let n: usize = list.len();
                let mut i: usize = 0;
                while i < n
                    invariant
                        n == list@.len(),
                        i <= n,
                        symbol_views(copy@) == symbol_views(list@.take(i as int)),
                    decreases n - i,
                {
                    let ghost before = copy@;
                    let s = list[i].duplicate();
                    copy.push(s);
                    i = i + 1;
                    assert(symbol_views(copy@) =~= symbol_views(before).push(s@));
                    assert(list@.take(i as int) =~= list@.take(i - 1).push(list@[i - 1]));
                    assert(symbol_views(list@.take(i as int)) =~= symbol_views(
                        list@.take(i - 1),
                    ).push(list@[i - 1]@));
                }
                assert(list@.take(n as int) =~= list@);
                Some(copy)
            },
            None => None,
        };
        ControlPointDef {
            model_id: self.model_id,
            point_name: self.point_name.clone(),
            label: self.label.clone(),
            description: self.description.clone(),
            data_type: self.data_type.clone(),
            symbols,
            units: copy_opt(&self.units),
        }
    }
}

/// A control point on one device, with the value it has now.
#[derive(Clone, Debug)]
pub struct ControlPointState {
    pub def: ControlPointDef,
    pub serial_number: String,
    /// The latest value of the point, where one is kept.
    pub current_value: Option<PayloadValueType>,
}

/// The content of a [`ControlPointState`].
pub struct ControlPointStateView {
    pub def: ControlPointDefView,
    pub serial_number: Seq<char>,
    pub current_value: Option<PayloadValueView>,
}

impl View for ControlPointState {
    type V = ControlPointStateView;

    open spec fn view(&self) -> ControlPointStateView {
        ControlPointStateView {
            def: self.def@,
            serial_number: self.serial_number@,
            current_value: match self.current_value {
                Some(v) => Some(v@),
                None => None,
            },
        }
    }
}

/// The contents of a list of control point states.
pub open spec fn state_views(v: Seq<ControlPointState>) -> Seq<ControlPointStateView> {
    v.map_values(|s: ControlPointState| s@)
}

/// All control points with their values.
#[derive(Clone, Debug, Default)]
pub struct ControlPointsResponse {
    pub points: Vec<ControlPointState>,
}

/// Whether the value at `i` is the first of its device that belongs to the
/// model `model_id`.
pub open spec fn first_of_device(values: Seq<LiveValueView>, model_id: u16, i: int) -> bool {
    &&& 0 <= i < values.len()
    &&& values[i].model_id == model_id
    &&& forall|j: int|
        0 <= j < i ==> !(#[trigger] values[j].model_id == model_id && values[j].serial_number
            == values[i].serial_number)
}

/// The value that is kept for a point of a device, if one is kept.
pub open spec fn current_value(
    values: Seq<LiveValueView>,
    serial: Seq<char>,
    model_id: u16,
    point: Seq<char>,
) -> Option<PayloadValueView> {
    match value_index(values, serial, model_id, point, 0) {
        Some(i) => Some(values[i].value),
        None => None,
    }
}

/// The states of one control point on the devices among the first `upto`
/// values: one state for each device that carries the point's model, in the
/// order in which the devices first occur.
pub open spec fn def_states(def: ControlPointDefView, values: Seq<LiveValueView>, upto: int) -> Seq<
    ControlPointStateView,
>
    decreases upto,
{
    if upto <= 0 {
        Seq::empty()
    } else {
        let rest = def_states(def, values, upto - 1);
        let i = upto - 1;
        if first_of_device(values, def.model_id, i) {
            rest.push(
                ControlPointStateView {
                    def,
                    serial_number: values[i].serial_number,
                    current_value: current_value(
                        values,
                        values[i].serial_number,
                        def.model_id,
                        def.point_name,
                    ),
                },
            )
        } else {
            rest
        }
    }
}

/// The states of a run of control points: those of the first, then those of
/// the second, and so on.
pub open spec fn all_states(defs: Seq<ControlPointDefView>, values: Seq<LiveValueView>) -> Seq<
    ControlPointStateView,
>
    decreases defs.len(),
{
    if defs.len() == 0 {
        Seq::empty()
    } else {
        all_states(defs.drop_last(), values) + def_states(defs.last(), values, values.len() as int)
    }
}

/// Whether the value at `i` is the first of its device that belongs to the
/// model `model_id`.
fn is_first_of_device(values: &Vec<LiveValue>, model_id: u16, i: usize) -> (r: bool)
    requires
        i < values@.len(),
    ensures
        r == first_of_device(live_views(values@), model_id, i as int),
{
    let ghost views = live_views(values@);
    assert(views[i as int] == values@[i as int]@);
    if values[i].model_id != model_id {
        return false;
    }
    let mut j: usize = 0;
    while j < i
        invariant
            j <= i,
            i < values@.len(),
            views == live_views(values@),
            views[i as int].model_id == model_id,
            forall|k: int|
                0 <= k < j ==> !(#[trigger] views[k].model_id == model_id && views[k].serial_number
                    == views[i as int].serial_number),
        decreases i - j,
    {
        assert(views[j as int] == values@[j as int]@);
        assert(views[i as int] == values@[i as int]@);
        if values[j].model_id == model_id && str_eq(
            values[j].serial_number.as_str(),
            values[i].serial_number.as_str(),
        ) {
            assert(views[j as int].model_id == model_id && views[j as int].serial_number
                == views[i as int].serial_number);
            return false;
        }
        j = j + 1;
    }
    true
}

/// Lists every control point on every device that carries its model, with
/// the value that is kept for it.
pub fn get_control_points(defs: &Vec<ControlPointDef>, values: &Vec<LiveValue>) -> (r:
    ControlPointsResponse)
    ensures
        state_views(r.points@) == all_states(def_views(defs@), live_views(values@)),
{
    let mut points: Vec<ControlPointState> = Vec::new();
    let ghost dv = def_views(defs@);
    let ghost lv = live_views(values@);
    let n: usize = defs.len();
    let m: usize = values.len();
    let mut d: usize = 0;
    assert(state_views(points@) =~= all_states(dv.take(0), lv));
    while d < n
        invariant
            n == defs@.len(),
            m == values@.len(),
            d <= n,
            dv == def_views(defs@),
            lv == live_views(values@),
            state_views(points@) == all_states(dv.take(d as int), lv),
        decreases n - d,
    {
        let def = &defs[d];
        let ghost done = state_views(points@);
        let mut i: usize = 0;
        assert(dv[d as int] == def@);
        assert(state_views(points@) =~= done + def_states(def@, lv, 0));
        while i < m
            invariant
                m == values@.len(),
                i <= m,
                lv == live_views(values@),
                state_views(points@) == done + def_states(def@, lv, i as int),
            decreases m - i,
        {
            if is_first_of_device(values, def.model_id, i) {
                let serial = values[i].serial_number.clone();
                assert(lv[i as int] == values@[i as int]@);
                let current: Option<PayloadValueType> = match find_live_value(
                    values,
                    serial.as_str(),
                    def.model_id,
                    def.point_name.as_str(),
                ) {
                    Some(k) => {
                        assert(lv[k as int] == values@[k as int]@);
                        Some(values[k].value.duplicate())
                    },
                    None => None,
                };
                let state = ControlPointState {
                    def: def.duplicate(),
                    serial_number: serial,
                    current_value: current,
                };
                let ghost before = points@;
                points.push(state);
                proof {
                    assert(state_views(points@) =~= state_views(before).push(state@));
                    assert(state_views(points@) =~= done + def_states(def@, lv, i + 1));
                }
            }
            i = i + 1;
        }
        proof {
            assert(dv.take(d + 1).drop_last() =~= dv.take(d as int));
            assert(dv.take(d + 1).last() == dv[d as int]);
        }
        d = d + 1;
    }
    assert(dv.take(n as int) =~= dv);
    ControlPointsResponse { points }
}

/// The sub-unit that is taken where a key names none that can be read.
pub const DEFAULT_SLAVE_ID: u8 = 1;

/// The address and the sub-unit that the key of a device names. The key is
/// `{address}/{sub-unit}` with exactly one slash. A sub-unit that is no
/// number of 8 bits is taken as the default.
pub open spec fn device_key_parts(key: Seq<char>) -> Option<(Seq<char>, u8)> {
    match split_first(key, '/') {
        Some((addr, slave)) => if slave.contains('/') {
            None
        } else {
            Some(
                (
                    addr,
                    match u8_of(slave) {
                        Some(id) => id,
                        None => DEFAULT_SLAVE_ID,
                    },
                ),
            )
        },
        None => None,
    }
}

/// Reads address and sub-unit off the key of a device.
pub fn parse_device_key(key: &str) -> (r: Option<(String, u8)>)
    ensures
        match r {
            Some((addr, slave_id)) => device_key_parts(key@) == Some((addr@, slave_id)),
            None => device_key_parts(key@) is None,
        },
{
    match split_once(key, '/') {
        Some((addr, slave)) => {
            proof {
                slave@.index_of_first_ensures('/');
            }
            match split_once(slave, '/') {
                Some(_) => None,
                None => {
                    let id: u8 = match parse_u8(slave) {
                        Some(id) => id,
                        None => DEFAULT_SLAVE_ID,
                    };
                    Some((addr.to_owned(), id))
                },
            }
        },
        None => None,
    }
}

} // verus!
