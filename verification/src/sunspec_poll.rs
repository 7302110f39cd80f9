//! The device worker: one per device, with a private schedule of points.
//!
//! The worker itself performs no read and sends nothing. Each of its steps
//! takes what happened (a control message, the outcome of a read) and says
//! what to do next. The caller owns the connection, performs the reads and
//! writes, and hands the outcomes back.

use vstd::prelude::*;
use vstd::string::*;
use rand::Rng;
use crate::config_structs::{InputType, ModelCatalog, PointConfig};
use crate::consts::STALE_AFTER_SECS;
use crate::gateway_error::GatewayError;
use crate::inbound::{
    decide_write, input_decision, symbol_decision, DropReason, Symbol, WriteDecision,
};
use crate::ipc::{publish_views, IPCMessage, IPCView, InboundMessage, PublishMessage, PublishView};
use crate::monitored_point::{monitored_point_of, MonitoredPoint};
use crate::payload::{
    compound_views, expected_payloads, generate_payloads, published_value, reading_accepted,
    CompoundPayload, CompoundView, Payload, PayloadValueType, PayloadValueView, PayloadView,
};
use crate::state_mgmt::{anomaly_flagged, check_deviation, AggregatedMeasurements};
use crate::sunspec_unit::{
    holds_model, PointReading, SunSpecPointError, SunSpecUnit, ValueType,
};
use crate::text::{parse_u16, str_eq, u16_of};

verus! {

/// Where a worker stands in its life.
#[derive(Clone, Copy, Debug, PartialEq, Eq, Structural)]
pub enum WorkerState {
    /// The worker evaluates its schedule.
    Polling,
    /// The worker ended because it was asked to.
    ShutdownExit,
    /// The worker ended because it lost its device.
    FaultExit,
}

/// What to do with one point of the schedule now.
#[derive(Clone, Copy, Debug, PartialEq, Eq, Structural)]
pub enum PointPlan {
    /// The worker has ended; nothing is evaluated any more.
    Ended,
    /// The schedule holds no such point, or the point awaits its removal.
    Absent,
    /// The device does not carry the point's model.
    NoModel,
    /// The point was reported too recently.
    NotDue,
    /// The point only takes input: announce it without a read. `stale`
    /// says that it went unreported for longer than the staleness threshold.
    ConfigOnly { stale: bool },
    /// Read the point. `stale` says that it went unreported for longer than
    /// the staleness threshold.
    Read { stale: bool },
}

/// One value to add to the history of a point.
#[derive(Clone, Debug)]
pub struct HistoryRecord {
    pub unique_id: String,
    pub value: PayloadValueType,
    pub last_seen: i64,
}

/// The content of a [`HistoryRecord`].
pub struct HistoryRecordView {
    pub unique_id: Seq<char>,
    pub value: PayloadValueView,
    pub last_seen: i64,
}

impl View for HistoryRecord {
    type V = HistoryRecordView;

    open spec fn view(&self) -> HistoryRecordView {
        HistoryRecordView {
            unique_id: self.unique_id@,
            value: self.value@,
            last_seen: self.last_seen,
        }
    }
}

/// The contents of a list of history records.
pub open spec fn record_views(v: Seq<HistoryRecord>) -> Seq<HistoryRecordView> {
    v.map_values(|r: HistoryRecord| r@)
}

/// What follows from the outcome of a read.
#[derive(Clone, Debug)]
pub enum ReadAction {
    /// Nothing: the step does not apply, or the error is only worth a log
    /// line.
    Skip,
    /// The point does not exist on the device and leaves the schedule.
    Dropped,
    /// The device is lost. Send `request` to the supervisor, leave it the
    /// time to arrive, and end with `result`.
    Fault { request: IPCMessage, result: GatewayError },
    /// The read brought no value.
    NoValue,
    /// Send `messages` in their order and add `records` to the history.
    /// `anomaly` says that the value is implausible against the point's
    /// history, which is worth a warning and nothing more.
    Publish { messages: Vec<PublishMessage>, records: Vec<HistoryRecord>, anomaly: bool },
}

/// What follows from a control message.
#[derive(Clone, Debug)]
pub enum ControlAction {
    /// The message is not for this worker, or the worker has ended.
    Ignore,
    /// Disconnect and end with this result.
    Exit(GatewayError),
    /// Write `value` to the point `point` of the model `model_id`.
    Write { model_id: u16, point: String, value: i64 },
    /// The write failed validation and goes no further.
    Dropped(DropReason),
}

/// The device worker.
#[derive(Clone, Debug)]
pub struct Worker {
    pub unit: SunSpecUnit,
    /// The watched points, in the order in which they are evaluated.
    pub points: Vec<MonitoredPoint>,
    /// When each point was last reported, in seconds since the epoch.
    pub last_report: Vec<i64>,
    /// Which points leave the schedule at the end of the pass.
    pub dropped: Vec<bool>,
    pub state: WorkerState,
}

/// The watched points that a model's configured points give, in their
/// order. A configured point without name and catalog reference gives none.
pub open spec fn watchable(
    model: String,
    configs: Seq<PointConfig>,
    hass_enabled: Option<bool>,
) -> Seq<MonitoredPoint>
    decreases configs.len(),
{
    if configs.len() == 0 {
        Seq::empty()
    } else {
        let rest = watchable(model, configs.drop_last(), hass_enabled);
        if configs.last().has_identifier() {
            rest.push(monitored_point_of(model, configs.last(), hass_enabled))
        } else {
            rest
        }
    }
}

/// Every point of the list keeps to the floor on its interval.
pub open spec fn all_wf(points: Seq<MonitoredPoint>) -> bool {
    forall|i: int| 0 <= i < points.len() ==> (#[trigger] points[i]).wf()
}

/// Builds the watched points of one model from its configured points.
pub fn build_schedule(model: &String, configs: Vec<PointConfig>, hass_enabled: Option<bool>) -> (r:
    Vec<MonitoredPoint>)
    ensures
        r@ == watchable(*model, configs@, hass_enabled),
        all_wf(r@),
{
    let mut out: Vec<MonitoredPoint> = Vec::new();
    let ghost all = configs@;
    assert(all.take(0) =~= Seq::<PointConfig>::empty());
    for pc in it: configs
        invariant
            it.seq() == all,
            out@ == watchable(*model, all.take(it.index() as int), hass_enabled),
            all_wf(out@),
    {
        let ghost k = it.index() as int;
        assert(all.take(k + 1).drop_last() =~= all.take(k));
        assert(all.take(k + 1).last() == pc);
        match MonitoredPoint::new(model.clone(), pc, hass_enabled) {
            Ok(p) => {
                out.push(p);
            },
            Err(_) => {},
        }
    }
    assert(all.take(all.len() as int) =~= all);
    out
}

/// The watched points that a catalog gives: those of its first model, then
/// those of its second, and so on.
pub open spec fn catalog_points(catalog: Seq<ModelCatalog>, hass_enabled: Option<bool>) -> Seq<
    MonitoredPoint,
>
    decreases catalog.len(),
{
    if catalog.len() == 0 {
        Seq::empty()
    } else {
        catalog_points(catalog.drop_last(), hass_enabled) + watchable(
            catalog.last().model,
            catalog.last().points@,
            hass_enabled,
        )
    }
}

/// Builds the schedule of a worker from the point catalog.
pub fn schedule_from_catalog(catalog: Vec<ModelCatalog>, hass_enabled: Option<bool>) -> (r: Vec<
    MonitoredPoint,
>)
    ensures
        r@ == catalog_points(catalog@, hass_enabled),
        all_wf(r@),
{
    let mut out: Vec<MonitoredPoint> = Vec::new();
    let ghost all = catalog@;
    assert(all.take(0) =~= Seq::<ModelCatalog>::empty());
    for entry in it: catalog
        invariant
            it.seq() == all,
            out@ == catalog_points(all.take(it.index() as int), hass_enabled),
            all_wf(out@),
    {
        let ghost k = it.index() as int;
        assert(all.take(k + 1).drop_last() =~= all.take(k));
        assert(all.take(k + 1).last() == entry);
        let ModelCatalog { model, points } = entry;
        let mut more = build_schedule(&model, points, hass_enabled);
        out.append(&mut more);
    }
    assert(all.take(all.len() as int) =~= all);
    out
}

/// The pause that staggers one evaluation of a point: some number of seconds
/// from zero up to, not including, `upper`.
///
/// Draws from the generator of the running thread with
/// `rand::Rng::gen_range`, which returns a value of the half-open range it is
/// given and panics on an empty one. Nothing else is claimed of the value.
#[verifier::external_body]
fn random_below(upper: u64) -> (r: u64)
    requires
        upper > 0,
    ensures
        r < upper,
{
    rand::thread_rng().gen_range(0..upper)
}

/// Draws the jitter for one evaluation of a point: at least zero and less
/// than the point's interval.
pub fn draw_jitter(point: &MonitoredPoint) -> (r: u64)
    ensures
        point.interval > 0 ==> r < point.interval,
        point.interval == 0 ==> r == 0,
{
    if point.interval > 0 {
        random_below(point.interval)
    } else {
        0
    }
}

/// Whether a point that was last reported at `last` is due at `now`, given
/// its interval and the jitter drawn for this evaluation.
pub open spec fn is_due(now: i64, last: i64, interval: u64, jitter: u64) -> bool {
    now - last >= interval + jitter
}

/// Whether a point that was last reported at `last` counts as stale at `now`.
pub open spec fn is_stale_at(now: i64, last: i64) -> bool {
    now - last > STALE_AFTER_SECS
}

/// What to do with a point of a polling worker.
pub open spec fn plan_for(
    point: MonitoredPoint,
    last: i64,
    dropped: bool,
    models: Seq<u16>,
    now: i64,
    jitter: u64,
) -> PointPlan {
    if dropped {
        PointPlan::Absent
    } else {
        match u16_of(point.model@) {
            Some(id) => if !models.contains(id) {
                PointPlan::NoModel
            } else if !is_due(now, last, point.interval, jitter) {
                PointPlan::NotDue
            } else if point.input_only == Some(true) {
                PointPlan::ConfigOnly { stale: is_stale_at(now, last) }
            } else {
                PointPlan::Read { stale: is_stale_at(now, last) }
            },
            None => PointPlan::NoModel,
        }
    }
}

/// Whether a watched point is the one that a write names.
pub open spec fn is_target(p: MonitoredPoint, model: Seq<char>, name: Seq<char>) -> bool {
    p.model@ == model && p.name.text() == name
}

/// The first point at or after `from` that a write names.
pub open spec fn first_target(
    points: Seq<MonitoredPoint>,
    model: Seq<char>,
    name: Seq<char>,
    from: int,
) -> Option<int>
    decreases points.len() - from,
{
    if from < 0 || from >= points.len() {
        None
    } else if is_target(points[from], model, name) {
        Some(from)
    } else {
        first_target(points, model, name, from + 1)
    }
}

/// What becomes of a write that is addressed to a device with the models
/// `models` and the watched points `points`.
///
/// The model has to be one that the device carries. Where the model gives
/// the point a table of symbols, that table decides. Otherwise the first
/// watched point of that model and name decides by the input it declares.
pub open spec fn inbound_decision(
    points: Seq<MonitoredPoint>,
    models: Seq<u16>,
    m: InboundMessage,
    symbols: Option<Seq<Symbol>>,
) -> WriteDecision {
    match u16_of(m.model@) {
        Some(id) => if !models.contains(id) {
            WriteDecision::Drop(DropReason::UnknownModel)
        } else {
            match symbols {
                Some(table) => symbol_decision(table, m.payload@),
                None => match first_target(points, m.model@, m.point_name@, 0) {
                    Some(i) => input_decision(points[i].input_type, m.payload@),
                    None => WriteDecision::Drop(DropReason::UnknownPoint),
                },
            }
        },
        None => WriteDecision::Drop(DropReason::UnknownModel),
    }
}

/// The messages that carry a list of payloads, in the order in which they
/// are sent: for each payload its discovery message, where the point is
/// announced at all, and then its state.
pub open spec fn telemetry_of(payloads: Seq<CompoundView>, discovery: bool) -> Seq<PublishView>
    decreases payloads.len(),
{
    if payloads.len() == 0 {
        Seq::empty()
    } else {
        let rest = telemetry_of(payloads.drop_last(), discovery);
        let p = payloads.last();
        let announced = if discovery {
            rest.push(PublishView { topic: p.config_topic, payload: PayloadView::Config(p.config) })
        } else {
            rest
        };
        announced.push(
            PublishView { topic: p.state_topic, payload: PayloadView::CurrentState(p.state) },
        )
    }
}

/// The history records of a list of payloads, one for each.
pub open spec fn records_of(payloads: Seq<CompoundView>) -> Seq<HistoryRecordView> {
    Seq::new(
        payloads.len(),
        |i: int|
            HistoryRecordView {
                unique_id: payloads[i].config.unique_id,
                value: payloads[i].state.value,
                last_seen: payloads[i].state.last_seen,
            },
    )
}

/// Whether a reading is implausible against the history of its point. Only
/// a reading that is published as a quantity with decimal places is judged.
pub open spec fn reading_anomaly(
    val: ValueType,
    mp: MonitoredPoint,
    history: Option<AggregatedMeasurements>,
) -> bool {
    !(val is Array) && reading_accepted(val, mp) && match published_value(val, mp) {
        PayloadValueView::Float(q) => anomaly_flagged(q, history, mp.check_deviations),
        _ => false,
    }
}

/// The announcement of a point that only takes input: its discovery
/// message, where the point is announced at all.
pub open spec fn announcement_of(unit: SunSpecUnit, mp: MonitoredPoint, now: i64) -> Seq<
    PublishView,
> {
    let p = expected_payloads(unit, None, mp, None, Seq::empty(), now)[0];
    if mp.homeassistant_discovery {
        seq![PublishView { topic: p.config_topic, payload: PayloadView::Config(p.config) }]
    } else {
        Seq::empty()
    }
}

/// What remains of `items` once those marked in `dropped` are taken out.
pub open spec fn kept<T>(items: Seq<T>, dropped: Seq<bool>) -> Seq<T>
    decreases items.len(),
{
    if items.len() == 0 || dropped.len() != items.len() {
        Seq::empty()
    } else if dropped[0] {
        kept(items.drop_first(), dropped.drop_first())
    } else {
        seq![items[0]] + kept(items.drop_first(), dropped.drop_first())
    }
}

/// Turns payloads into the messages that carry them and the records that
/// the history takes.
fn split_payloads(payloads: &Vec<CompoundPayload>, discovery: bool) -> (r: (
    Vec<PublishMessage>,
    Vec<HistoryRecord>,
))
    ensures
        publish_views(r.0@) == telemetry_of(compound_views(payloads@), discovery),
        record_views(r.1@) == records_of(compound_views(payloads@)),
{
    let mut messages: Vec<PublishMessage> = Vec::new();
    let mut records: Vec<HistoryRecord> = Vec::new();
    let ghost views = compound_views(payloads@);
    let n: usize = payloads.len();
    let mut i: usize = 0;
    assert(publish_views(messages@) =~= telemetry_of(views.take(0), discovery));
    assert(record_views(records@) =~= records_of(views.take(0)));
    while i < n
        invariant
            n == payloads@.len(),
            views == compound_views(payloads@),
            i <= n,
            publish_views(messages@) == telemetry_of(views.take(i as int), discovery),
            record_views(records@) == records_of(views.take(i as int)),
        decreases n - i,
    {
        let p = &payloads[i];
        assert(views[i as int] == p@);
        assert(views.take(i + 1).drop_last() =~= views.take(i as int));
        assert(views.take(i + 1).last() == p@);
        if discovery {
            let ghost before = messages@;
            messages.push(
                PublishMessage {
                    topic: p.config_topic.clone(),
                    payload: Payload::Config(p.config.duplicate()),
                },
            );
            assert(publish_views(messages@) =~= publish_views(before).push(
                PublishView { topic: p@.config_topic, payload: PayloadView::Config(p@.config) },
            ));
        }
        let ghost before = messages@;
        messages.push(
            PublishMessage {
                topic: p.state_topic.clone(),
                payload: Payload::CurrentState(p.state.duplicate()),
            },
        );
        assert(publish_views(messages@) =~= publish_views(before).push(
            PublishView { topic: p@.state_topic, payload: PayloadView::CurrentState(p@.state) },
        ));
        let ghost old_records = records@;
        records.push(
            HistoryRecord {
                unique_id: p.config.unique_id.clone(),
                value: p.state.value.duplicate(),
                last_seen: p.state.last_seen,
            },
        );
        i = i + 1;
        assert(record_views(records@) =~= record_views(old_records).push(
            HistoryRecordView {
                unique_id: p@.config.unique_id,
                value: p@.state.value,
                last_seen: p@.state.last_seen,
            },
        ));
        assert forall|k: int| 0 <= k < i - 1 implies views.take(i as int)[k] == views.take(
            i - 1,
        )[k] by {}
        assert(record_views(records@) =~= records_of(views.take(i as int)));
    }
    assert(views.take(n as int) =~= views);
    (messages, records)
}

impl Worker {
    /// The invariant of a worker: one report time and one mark for each
    /// point, and every point keeps to the floor on its interval.
    pub open spec fn wf(&self) -> bool {
        &&& self.last_report@.len() == self.points@.len()
        &&& self.dropped@.len() == self.points@.len()
        &&& all_wf(self.points@)
    }

    /// A worker for `unit` that watches `points`. No point counts as
    /// reported before `genesis`, the moment at which the worker starts.
    pub fn new(unit: SunSpecUnit, points: Vec<MonitoredPoint>, genesis: i64) -> (r: Worker)
        requires
            all_wf(points@),
        ensures
            r.wf(),
            r.unit == unit,
            r.points == points,
            r.state == WorkerState::Polling,
            forall|i: int| 0 <= i < points@.len() ==> r.last_report@[i] == genesis,
            forall|i: int| 0 <= i < points@.len() ==> !r.dropped@[i],
    {
        let mut last_report: Vec<i64> = Vec::new();
        let mut dropped: Vec<bool> = Vec::new();
        let n: usize = points.len();
        let mut i: usize = 0;
        while i < n
            invariant
                n == points@.len(),
                i <= n,
                last_report@.len() == i,
                dropped@.len() == i,
                forall|j: int| 0 <= j < i ==> last_report@[j] == genesis,
                forall|j: int| 0 <= j < i ==> !dropped@[j],
            decreases n - i,
        {
            last_report.push(genesis);
            dropped.push(false);
            i = i + 1;
        }
        Worker { unit, points, last_report, dropped, state: WorkerState::Polling }
    }

    /// The number of points on the schedule.
    pub fn len(&self) -> (r: usize)
        ensures
            r == self.points@.len(),
    {
        self.points.len()
    }

    /// Whether the worker still evaluates its schedule.
    pub fn is_polling(&self) -> (r: bool)
        ensures
            r == (self.state == WorkerState::Polling),
    {
        match self.state {
            WorkerState::Polling => true,
            _ => false,
        }
    }

    /// What the point at `idx` is due for at `now`, given the jitter drawn
    /// for this evaluation.
    pub open spec fn spec_plan(&self, idx: usize, now: i64, jitter: u64) -> PointPlan {
        if self.state != WorkerState::Polling {
            PointPlan::Ended
        } else if idx >= self.points@.len() {
            PointPlan::Absent
        } else {
            plan_for(
                self.points@[idx as int],
                self.last_report@[idx as int],
                self.dropped@[idx as int],
                self.unit.models@,
                now,
                jitter,
            )
        }
    }

    /// Says what to do with the point at `idx` now.
    ///
    /// A worker that has ended plans nothing. A point whose model the device
    /// does not carry is passed over. A point is due once the time since its
    /// last report has reached its interval plus the jitter.
    pub fn plan(&self, idx: usize, now: i64, jitter: u64) -> (r: PointPlan)
        requires
            self.wf(),
        ensures
            r == self.spec_plan(idx, now, jitter),
    {
        if !self.is_polling() {
            return PointPlan::Ended;
        }
        if idx >= self.points.len() {
            return PointPlan::Absent;
        }
        if self.dropped[idx] {
            return PointPlan::Absent;
        }
        let point = &self.points[idx];
        let id = match parse_u16(point.model.as_str()) {
            Some(id) => id,
            None => {
                return PointPlan::NoModel;
            },
        };
        if !holds_model(&self.unit.models, id) {
            return PointPlan::NoModel;
        }
        let elapsed: i128 = now as i128 - self.last_report[idx] as i128;
        if elapsed < point.interval as i128 + jitter as i128 {
            return PointPlan::NotDue;
        }
        let stale: bool = elapsed > STALE_AFTER_SECS as i128;
        match point.input_only {
            Some(true) => PointPlan::ConfigOnly { stale },
            _ => PointPlan::Read { stale },
        }
    }

    /// Whether a control message is a write to this worker's device.
    pub fn is_addressed(&self, msg: &IPCMessage) -> (r: bool)
        ensures
            r == (msg matches IPCMessage::Inbound(m) && m.serial_number@
                == self.unit.serial_number@),
    {
        match msg {
            IPCMessage::Inbound(m) => m.serial_number == self.unit.serial_number,
            _ => false,
        }
    }

    /// Finds the first watched point that a write names.
    fn find_target(&self, model: &str, name: &str) -> (r: Option<usize>)
        ensures
            match r {
                Some(i) => first_target(self.points@, model@, name@, 0) == Some(i as int) && i
                    < self.points@.len(),
                None => first_target(self.points@, model@, name@, 0) is None,
            },
    {
        let n: usize = self.points.len();
        let mut i: usize = 0;
        while i < n
            invariant
                n == self.points@.len(),
                i <= n,
                first_target(self.points@, model@, name@, 0) == first_target(
                    self.points@,
                    model@,
                    name@,
                    i as int,
                ),
            decreases n - i,
        {
            let p = &self.points[i];
            if str_eq(p.model.as_str(), model) && str_eq(p.name.as_str(), name) {
                return Some(i);
            }
            i = i + 1;
        }
        None
    }

    /// Decides what becomes of a write that is addressed to this device.
    pub fn decide_inbound(&self, m: &InboundMessage, symbols: Option<&Vec<Symbol>>) -> (r:
        WriteDecision)
        ensures
            r == inbound_decision(
                self.points@,
                self.unit.models@,
                *m,
                match symbols {
                    Some(t) => Some(t@),
                    None => None,
                },
            ),
    {
        let id = match parse_u16(m.model.as_str()) {
            Some(id) => id,
            None => {
                return WriteDecision::Drop(DropReason::UnknownModel);
            },
        };
        if !holds_model(&self.unit.models, id) {
            return WriteDecision::Drop(DropReason::UnknownModel);
        }
        match symbols {
            Some(table) => decide_write(Some(table), None, m.payload.as_str()),
            None => match self.find_target(m.model.as_str(), m.point_name.as_str()) {
                Some(i) => {
                    let input: Option<&InputType> = match &self.points[i].input_type {
                        Some(t) => Some(t),
                        None => None,
                    };
                    decide_write(None, input, m.payload.as_str())
                },
                None => WriteDecision::Drop(DropReason::UnknownPoint),
            },
        }
    }

    /// Takes a control message.
    ///
    /// `symbols` is the table of symbols that the model gives the point
    /// named by a write, if it gives one. A worker that has ended ignores
    /// every message. On a shutdown the worker ends with the result that
    /// tells an exit by request from a failure. A write for another device
    /// is ignored. A write for this device is validated, and only a value
    /// that passed comes back to be written. Other messages are not meant
    /// for workers and are ignored.
    pub fn on_control(&mut self, msg: &IPCMessage, symbols: Option<&Vec<Symbol>>) -> (r:
        ControlAction)
        ensures
            final(self).unit == old(self).unit,
            final(self).points == old(self).points,
            final(self).last_report == old(self).last_report,
            final(self).dropped == old(self).dropped,
            old(self).state != WorkerState::Polling ==> r is Ignore && final(self).state == old(
                self,
            ).state,
            old(self).state == WorkerState::Polling ==> match *msg {
                IPCMessage::Shutdown => {
                    &&& final(self).state == WorkerState::ShutdownExit
                    &&& r matches ControlAction::Exit(e)
                    &&& e is ExitingThread
                },
                IPCMessage::Inbound(m) => {
                    &&& final(self).state == WorkerState::Polling
                    &&& if m.serial_number@ != old(self).unit.serial_number@ {
                        r is Ignore
                    } else {
                        match inbound_decision(
                            old(self).points@,
                            old(self).unit.models@,
                            m,
                            match symbols {
                                Some(t) => Some(t@),
                                None => None,
                            },
                        ) {
                            WriteDecision::Write(v) => {
                                &&& r matches ControlAction::Write { model_id, point, value }
                                &&& Some(model_id) == u16_of(m.model@)
                                &&& point@ == m.point_name@
                                &&& value == v
                            },
                            WriteDecision::Drop(reason) => r matches ControlAction::Dropped(x)
                                && x == reason,
                        }
                    }
                },
                _ => r is Ignore && final(self).state == WorkerState::Polling,
            },
    {
        if !self.is_polling() {
            return ControlAction::Ignore;
        }
        match msg {
            IPCMessage::Shutdown => {
                self.state = WorkerState::ShutdownExit;
                ControlAction::Exit(GatewayError::ExitingThread)
            },
            IPCMessage::Inbound(m) => {
                if m.serial_number != self.unit.serial_number {
                    return ControlAction::Ignore;
                }
                match self.decide_inbound(m, symbols) {
                    WriteDecision::Write(value) => match parse_u16(m.model.as_str()) {
                        Some(model_id) => ControlAction::Write {
                            model_id,
                            point: m.point_name.clone(),
                            value,
                        },
                        None => ControlAction::Dropped(DropReason::UnknownModel),
                    },
                    WriteDecision::Drop(reason) => ControlAction::Dropped(reason),
                }
            },
            _ => ControlAction::Ignore,
        }
    }

    /// Whether the step that takes an outcome for the point at `idx`
    /// applies: the worker polls and the point is on the schedule.
    pub open spec fn evaluates(&self, idx: usize) -> bool {
        &&& self.state == WorkerState::Polling
        &&& idx < self.points@.len()
        &&& !self.dropped@[idx as int]
    }

    /// Announces the point at `idx`, which only takes input, and notes the
    /// report. Returns the messages to send.
    pub fn config_only(&mut self, idx: usize, now: i64) -> (r: Vec<PublishMessage>)
        requires
            old(self).wf(),
        ensures
            final(self).wf(),
            final(self).unit == old(self).unit,
            final(self).points == old(self).points,
            final(self).dropped == old(self).dropped,
            final(self).state == old(self).state,
            if old(self).evaluates(idx) {
                &&& final(self).last_report@ == old(self).last_report@.update(idx as int, now)
                &&& publish_views(r@) == announcement_of(
                    old(self).unit,
                    old(self).points@[idx as int],
                    now,
                )
            } else {
                &&& final(self).last_report == old(self).last_report
                &&& r@.len() == 0
            },
    {
        let mut out: Vec<PublishMessage> = Vec::new();
        if !self.is_polling() || idx >= self.points.len() {
            return out;
        }
        if self.dropped[idx] {
            return out;
        }
        let point = &self.points[idx];
        let stale: Vec<String> = Vec::new();
        let payloads = generate_payloads(&self.unit, None, point, None, &stale, now);
        assert(stale@ =~= Seq::<String>::empty());
        assert(compound_views(payloads@).len() == 1);
        if point.homeassistant_discovery {
            let p = &payloads[0];
            assert(compound_views(payloads@)[0] == p@);
            out.push(
                PublishMessage {
                    topic: p.config_topic.clone(),
                    payload: Payload::Config(p.config.duplicate()),
                },
            );
            assert(publish_views(out@) =~= announcement_of(
                self.unit,
                self.points@[idx as int],
                now,
            ));
        } else {
            assert(publish_views(out@) =~= Seq::<PublishView>::empty());
        }
        self.last_report.set(idx, now);
        out
    }

    /// Takes the outcome of the read of the point at `idx`.
    ///
    /// `history` is the aggregate of the point's stored values, if there is
    /// one; `stale` holds the identifiers of the states of an enumerated
    /// point that were on when last stored and are no longer set; `now` is
    /// the time of the read.
    ///
    /// A lost device ends the worker and asks the supervisor, once, to
    /// reconnect. A point that does not exist is marked to leave the
    /// schedule. Any other error leaves everything as it is. A value is
    /// turned into its messages, the report is noted, and the value is
    /// judged against the history. Where the step does not apply, nothing
    /// happens.
    pub fn on_read(
        &mut self,
        idx: usize,
        outcome: Result<PointReading, SunSpecPointError>,
        history: Option<&AggregatedMeasurements>,
        stale: &Vec<String>,
        now: i64,
    ) -> (r: ReadAction)
        requires
            old(self).wf(),
        ensures
            final(self).wf(),
            final(self).unit == old(self).unit,
            final(self).points == old(self).points,
            !old(self).evaluates(idx) ==> {
                &&& r is Skip
                &&& *final(self) == *old(self)
            },
            old(self).evaluates(idx) ==> match outcome {
                Err(SunSpecPointError::CommError(e)) => {
                    &&& final(self).state == WorkerState::FaultExit
                    &&& final(self).last_report == old(self).last_report
                    &&& final(self).dropped == old(self).dropped
                    &&& r matches ReadAction::Fault { request, result }
                    &&& request@ == IPCView::PleaseReconnect(
                        old(self).unit.addr@,
                        old(self).unit.slave_id,
                    )
                    &&& result matches GatewayError::CommunicationError(text)
                    &&& text@ == e@
                },
                Err(SunSpecPointError::DoesNotExist(_)) => {
                    &&& final(self).state == WorkerState::Polling
                    &&& final(self).last_report == old(self).last_report
                    &&& final(self).dropped@ == old(self).dropped@.update(idx as int, true)
                    &&& r is Dropped
                },
                Err(_) => {
                    &&& r is Skip
                    &&& *final(self) == *old(self)
                },
                Ok(reading) => match reading.value {
                    None => {
                        &&& r is NoValue
                        &&& *final(self) == *old(self)
                    },
                    Some(val) => {
                        let point = old(self).points@[idx as int];
                        let expected = expected_payloads(
                            old(self).unit,
                            Some(&reading.data),
                            point,
                            Some(&val),
                            stale@,
                            now,
                        );
                        &&& final(self).state == WorkerState::Polling
                        &&& final(self).dropped == old(self).dropped
                        &&& final(self).last_report@ == old(self).last_report@.update(
                            idx as int,
                            now,
                        )
                        &&& r matches ReadAction::Publish { messages, records, anomaly }
                        &&& publish_views(messages@) == telemetry_of(
                            expected,
                            point.homeassistant_discovery,
                        )
                        &&& record_views(records@) == records_of(expected)
                        &&& anomaly == reading_anomaly(
                            val,
                            point,
                            match history {
                                Some(h) => Some(*h),
                                None => None,
                            },
                        )
                    },
                },
            },
    {
        if !self.is_polling() || idx >= self.points.len() {
            return ReadAction::Skip;
        }
        if self.dropped[idx] {
            return ReadAction::Skip;
        }
        match outcome {
            Err(SunSpecPointError::CommError(e)) => {
                self.state = WorkerState::FaultExit;
                ReadAction::Fault {
                    request: IPCMessage::PleaseReconnect(self.unit.addr.clone(), self.unit.slave_id),
                    result: GatewayError::CommunicationError(e),
                }
            },
            Err(SunSpecPointError::DoesNotExist(_)) => {
                self.dropped.set(idx, true);
                ReadAction::Dropped
            },
            Err(_) => ReadAction::Skip,
            Ok(reading) => match &reading.value {
                None => ReadAction::NoValue,
                Some(val) => {
                    let point = &self.points[idx];
                    let payloads = generate_payloads(
                        &self.unit,
                        Some(&reading.data),
                        point,
                        Some(val),
                        stale,
                        now,
                    );
                    let anomaly: bool = match val {
                        ValueType::Array(_) => false,
                        _ => if payloads.len() > 0 {
                            let p = &payloads[0];
                            assert(compound_views(payloads@)[0] == p@);
                            match &p.state.value {
                                PayloadValueType::Float(q) => check_deviation(
                                    *q,
                                    history,
                                    point.check_deviations,
                                ),
                                _ => false,
                            }
                        } else {
                            false
                        },
                    };
                    let (messages, records) = split_payloads(
                        &payloads,
                        point.homeassistant_discovery,
                    );
                    self.last_report.set(idx, now);
                    ReadAction::Publish { messages, records, anomaly }
                },
            },
        }
    }

    /// Takes the points that were marked during the pass off the schedule.
    /// The points that stay keep their order and their report times.
    pub fn end_tick(&mut self)
        requires
            old(self).wf(),
        ensures
            final(self).wf(),
            final(self).unit == old(self).unit,
            final(self).state == old(self).state,
            final(self).points@ == kept(old(self).points@, old(self).dropped@),
            final(self).last_report@ == kept(old(self).last_report@, old(self).dropped@),
            forall|i: int| 0 <= i < final(self).dropped@.len() ==> !final(self).dropped@[i],
    {
        let ghost points0 = self.points@;
        let ghost last0 = self.last_report@;
        let ghost dropped0 = self.dropped@;
        let n: usize = self.points.len();
        let mut i: usize = n;
        proof {
            assert(points0.skip(n as int) =~= Seq::<MonitoredPoint>::empty());
            assert(last0.skip(n as int) =~= Seq::<i64>::empty());
            assert(points0.take(n as int) =~= points0);
            assert(last0.take(n as int) =~= last0);
            assert(self.points@ =~= points0.take(n as int) + kept(
                points0.skip(n as int),
                dropped0.skip(n as int),
            ));
            assert(self.last_report@ =~= last0.take(n as int) + kept(
                last0.skip(n as int),
                dropped0.skip(n as int),
            ));
        }
        while i > 0
            invariant
                n == points0.len(),
                n == last0.len(),
                n == dropped0.len(),
                all_wf(points0),
                i <= n,
                self.unit == old(self).unit,
                self.state == old(self).state,
                self.points@ == points0.take(i as int) + kept(
                    points0.skip(i as int),
                    dropped0.skip(i as int),
                ),
                self.last_report@ == last0.take(i as int) + kept(
                    last0.skip(i as int),
                    dropped0.skip(i as int),
                ),
                self.dropped@.len() == self.points@.len(),
                self.last_report@.len() == self.points@.len(),
                forall|j: int| 0 <= j < i ==> self.dropped@[j] == dropped0[j],
                forall|j: int| i <= j < self.dropped@.len() ==> !self.dropped@[j],
            decreases i,
        {
            i = i - 1;
            proof {
                assert(points0.skip(i as int).drop_first() =~= points0.skip(i + 1));
                assert(last0.skip(i as int).drop_first() =~= last0.skip(i + 1));
                assert(dropped0.skip(i as int).drop_first() =~= dropped0.skip(i + 1));
                assert(points0.skip(i as int)[0] == points0[i as int]);
                assert(last0.skip(i as int)[0] == last0[i as int]);
                assert(dropped0.skip(i as int)[0] == dropped0[i as int]);
                assert(points0.take(i + 1) =~= points0.take(i as int).push(points0[i as int]));
                assert(last0.take(i + 1) =~= last0.take(i as int).push(last0[i as int]));
            }
            if self.dropped[i] {
                self.points.remove(i);
                self.last_report.remove(i);
                self.dropped.remove(i);
                proof {
                    assert(self.points@ =~= points0.take(i as int) + kept(
                        points0.skip(i as int),
                        dropped0.skip(i as int),
                    ));
                    assert(self.last_report@ =~= last0.take(i as int) + kept(
                        last0.skip(i as int),
                        dropped0.skip(i as int),
                    ));
                }
            } else {
                proof {
                    assert(self.points@ =~= points0.take(i as int) + kept(
                        points0.skip(i as int),
                        dropped0.skip(i as int),
                    ));
                    assert(self.last_report@ =~= last0.take(i as int) + kept(
                        last0.skip(i as int),
                        dropped0.skip(i as int),
                    ));
                }
            }
        }
        proof {
            assert(points0.take(0) =~= Seq::<MonitoredPoint>::empty());
            assert(last0.take(0) =~= Seq::<i64>::empty());
            assert(points0.skip(0) =~= points0);
            assert(last0.skip(0) =~= last0);
            assert(dropped0.skip(0) =~= dropped0);
            assert(self.points@ =~= kept(points0, dropped0));
            assert(self.last_report@ =~= kept(last0, dropped0));
            lemma_kept_members(points0, dropped0);
        }
    }
}

/// What is kept of a list was in the list.
pub proof fn lemma_kept_members<T>(items: Seq<T>, dropped: Seq<bool>)
    ensures
        forall|i: int|
            0 <= i < kept(items, dropped).len() ==> items.contains(
                #[trigger] kept(items, dropped)[i],
            ),
        kept(items, dropped).len() <= items.len(),
    decreases items.len(),
{
    if items.len() == 0 || dropped.len() != items.len() {
    } else {
        lemma_kept_members(items.drop_first(), dropped.drop_first());
        let rest = kept(items.drop_first(), dropped.drop_first());
        assert forall|i: int| 0 <= i < kept(items, dropped).len() implies items.contains(
            #[trigger] kept(items, dropped)[i],
        ) by {
            let x = kept(items, dropped)[i];
            if dropped[0] {
                assert(items.drop_first().contains(rest[i]));
                let k = choose|k: int| 0 <= k < items.drop_first().len() && items.drop_first()[k] == x;
                assert(items[k + 1] == x);
            } else if i == 0 {
                assert(items[0] == x);
            } else {
                assert(rest[i - 1] == x);
                assert(items.drop_first().contains(rest[i - 1]));
                let k = choose|k: int| 0 <= k < items.drop_first().len() && items.drop_first()[k] == x;
                assert(items[k + 1] == x);
            }
        }
    }
}

/// However the jitter falls, a point is not read before its interval has
/// passed since its last report.
pub proof fn lemma_not_due_within_interval(w: Worker, idx: usize, now: i64, jitter: u64)
    requires
        w.wf(),
        idx < w.points@.len(),
        now - w.last_report@[idx as int] < w.points@[idx as int].interval,
    ensures
        !(w.spec_plan(idx, now, jitter) is Read),
        !(w.spec_plan(idx, now, jitter) is ConfigOnly),
{
}

/// A worker that has ended reads nothing more.
pub proof fn lemma_ended_worker_plans_nothing(w: Worker, idx: usize, now: i64, jitter: u64)
    requires
        w.state != WorkerState::Polling,
    ensures
        w.spec_plan(idx, now, jitter) == PointPlan::Ended,
{
}

} // verus!
