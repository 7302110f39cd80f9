//! The supervisor: sole reader of what the workers send, sole owner of the
//! retry queue and of the queue of telemetry that awaits publishing.
//!
//! Like the worker, the supervisor acts through its caller. Each step takes
//! one event of a tick and says what follows from it.

use std::collections::VecDeque;
use vstd::prelude::*;
use vstd::string::*;
use crate::consts::RETRY_COOLDOWN_SECS;
use crate::gateway_error::GatewayError;
use crate::ipc::{IPCError, IPCMessage, IPCView, InboundMessage, PublishMessage};

verus! {

/// A device that waits to be connected again.
#[derive(Clone, Debug)]
pub struct RetryEntry {
    pub addr: String,
    pub slave_id: u8,
    /// When the device was lost or last tried, in seconds since the epoch.
    pub failed_at: i64,
}

/// What follows from a message that reached the supervisor.
#[derive(Clone, Debug)]
pub enum SupervisorAction {
    /// The supervisor has stopped and processes nothing more.
    Ignored,
    /// The telemetry awaits publishing.
    Queued,
    /// The device awaits its reconnect.
    RetryQueued,
    /// Hand the write to every worker, as it is.
    Broadcast(InboundMessage),
    /// End the whole process with this report.
    Fatal(IPCError),
    /// Clean up and end.
    Stop,
}

/// What follows from the end of a worker.
#[derive(Clone, Copy, Debug, PartialEq, Eq, Structural)]
pub enum ReapAction {
    /// Workers run forever; one that ends well is worth a warning.
    WarnUnexpectedExit,
    /// The worker lost its device and has asked for the reconnect itself, or
    /// it ended because it was asked to. Nothing is left to do.
    Nothing,
    /// The worker failed in a way that nobody foresaw: end the whole process.
    Fatal,
}

/// The supervisor's own state.
#[derive(Clone, Debug)]
pub struct Supervisor {
    /// Devices that await a reconnect, oldest request first.
    pub retry_queue: VecDeque<RetryEntry>,
    /// Telemetry that awaits publishing, oldest first.
    pub msg_queue: VecDeque<PublishMessage>,
    /// Set once a shutdown was seen.
    pub stopped: bool,
}

/// Whether a device that failed at `failed_at` may be tried again at `now`.
pub open spec fn is_retry_due(now: i64, failed_at: i64) -> bool {
    now - failed_at >= RETRY_COOLDOWN_SECS
}

/// The retry queue after one service at `now`, and the entry to try, if one
/// is due. Only the entry at the head is looked at: it leaves the queue
/// where it is due, and moves to the tail as it is where it is not.
pub open spec fn serviced(queue: Seq<RetryEntry>, now: i64) -> (Seq<RetryEntry>, Option<RetryEntry>) {
    if queue.len() == 0 {
        (queue, None)
    } else if is_retry_due(now, queue[0].failed_at) {
        (queue.drop_first(), Some(queue[0]))
    } else {
        (queue.drop_first().push(queue[0]), None)
    }
}

/// The retry queue after a message was routed at `now`: a request to
/// reconnect adds one entry at the tail, stamped `now`; no other message
/// touches the queue.
pub open spec fn retry_queue_after(queue: Seq<RetryEntry>, msg: IPCMessage, now: i64) -> Seq<
    RetryEntry,
> {
    match msg {
        IPCMessage::PleaseReconnect(addr, slave_id) => queue.push(
            RetryEntry { addr, slave_id, failed_at: now },
        ),
        _ => queue,
    }
}

/// The report with which the process ends on a worker's error.
pub open spec fn fatal_text(e: IPCError) -> Seq<char> {
    "serial_number="@ + e.serial_number@ + ": "@ + e.msg@
}

/// What follows from the result with which a worker ended.
pub open spec fn reap_action(result: Result<(), GatewayError>) -> ReapAction {
    match result {
        Ok(_) => ReapAction::WarnUnexpectedExit,
        Err(GatewayError::CommunicationError(_)) => ReapAction::Nothing,
        Err(GatewayError::ExitingThread) => ReapAction::Nothing,
        Err(GatewayError::Error(_)) => ReapAction::Fatal,
        Err(GatewayError::Unspecified) => ReapAction::Fatal,
    }
}

/// Builds the report with which the process ends on a worker's error.
pub fn fatal_message(e: &IPCError) -> (r: String)
    ensures
        r@ == fatal_text(*e),
{
    let mut r = String::from_str("serial_number=");
    r.append(e.serial_number.as_str());
    r.append(": ");
    r.append(e.msg.as_str());
    r
}

/// Classifies the end of a worker. A lost device is an expected end; an
/// error that nobody foresaw ends the process; a worker that ends well
/// should not have ended at all.
pub fn reap(result: &Result<(), GatewayError>) -> (r: ReapAction)
    ensures
        r == reap_action(*result),
{
    match result {
        Ok(_) => ReapAction::WarnUnexpectedExit,
        Err(GatewayError::CommunicationError(_)) => ReapAction::Nothing,
        Err(GatewayError::ExitingThread) => ReapAction::Nothing,
        Err(GatewayError::Error(_)) => ReapAction::Fatal,
        Err(GatewayError::Unspecified) => ReapAction::Fatal,
    }
}

impl Supervisor {
    /// A supervisor with nothing queued.
    pub fn new() -> (r: Supervisor)
        ensures
            r.retry_queue@.len() == 0,
            r.msg_queue@.len() == 0,
            !r.stopped,
    {
        Supervisor { retry_queue: VecDeque::new(), msg_queue: VecDeque::new(), stopped: false }
    }

    /// Takes one message from a worker or from outside.
    ///
    /// Telemetry joins the queue of what awaits publishing. A request to
    /// reconnect puts exactly one entry at the tail of the retry queue,
    /// stamped `now`. A write from outside is handed on to the workers as it
    /// is. A worker's error ends the process. A shutdown stops the
    /// supervisor, which then processes nothing more.
    pub fn route(&mut self, msg: IPCMessage, now: i64) -> (r: SupervisorAction)
        ensures
            old(self).stopped ==> r is Ignored && *final(self) == *old(self),
            !old(self).stopped ==> final(self).retry_queue@ == retry_queue_after(
                old(self).retry_queue@,
                msg,
                now,
            ),
            !old(self).stopped ==> match msg {
                IPCMessage::Outbound(o) => {
                    &&& r is Queued
                    &&& final(self).msg_queue@ == old(self).msg_queue@.push(o)
                    &&& final(self).retry_queue@ == old(self).retry_queue@
                    &&& !final(self).stopped
                },
                IPCMessage::PleaseReconnect(addr, slave_id) => {
                    &&& r is RetryQueued
                    &&& final(self).retry_queue@ == old(self).retry_queue@.push(
                        RetryEntry { addr, slave_id, failed_at: now },
                    )
                    &&& final(self).msg_queue@ == old(self).msg_queue@
                    &&& !final(self).stopped
                },
                IPCMessage::Inbound(m) => {
                    &&& r == SupervisorAction::Broadcast(m)
                    &&& *final(self) == *old(self)
                },
                IPCMessage::Error(e) => {
                    &&& r == SupervisorAction::Fatal(e)
                    &&& *final(self) == *old(self)
                },
                IPCMessage::Shutdown => {
                    &&& r is Stop
                    &&& final(self).stopped
                    &&& final(self).msg_queue@ == old(self).msg_queue@
                    &&& final(self).retry_queue@ == old(self).retry_queue@
                },
            },
    {
        if self.stopped {
            return SupervisorAction::Ignored;
        }
        match msg {
            IPCMessage::Outbound(o) => {
                self.msg_queue.push_back(o);
                SupervisorAction::Queued
            },
            IPCMessage::PleaseReconnect(addr, slave_id) => {
                self.retry_queue.push_back(RetryEntry { addr, slave_id, failed_at: now });
                SupervisorAction::RetryQueued
            },
            IPCMessage::Inbound(m) => SupervisorAction::Broadcast(m),
            IPCMessage::Error(e) => SupervisorAction::Fatal(e),
            IPCMessage::Shutdown => {
                self.stopped = true;
                SupervisorAction::Stop
            },
        }
    }

    /// Notes that a device could not be connected at `now`: it joins the
    /// tail of the retry queue with a fresh stamp.
    pub fn reconnect_failed(&mut self, addr: String, slave_id: u8, now: i64)
        ensures
            final(self).retry_queue@ == old(self).retry_queue@.push(
                RetryEntry { addr, slave_id, failed_at: now },
            ),
            final(self).msg_queue@ == old(self).msg_queue@,
            final(self).stopped == old(self).stopped,
    {
        self.retry_queue.push_back(RetryEntry { addr, slave_id, failed_at: now });
    }

    /// Takes the oldest telemetry off the queue of what awaits publishing.
    pub fn next_publish(&mut self) -> (r: Option<PublishMessage>)
        ensures
            final(self).retry_queue@ == old(self).retry_queue@,
            final(self).stopped == old(self).stopped,
            match r {
                Some(m) => {
                    &&& old(self).msg_queue@.len() > 0
                    &&& m == old(self).msg_queue@[0]
                    &&& final(self).msg_queue@ == old(self).msg_queue@.drop_first()
                },
                None => {
                    &&& old(self).msg_queue@.len() == 0
                    &&& final(self).msg_queue@ == old(self).msg_queue@
                },
            },
    {
        let r = self.msg_queue.pop_front();
        proof {
            if r is Some {
                assert(self.msg_queue@ =~= old(self).msg_queue@.drop_first());
            }
        }
        r
    }

    /// Services the retry queue once, as every tick does.
    ///
    /// Returns the device to connect now, if the entry at the head of the
    /// queue has waited out its cooldown. An entry that has not is put back
    /// at the tail, unchanged. No more than one entry is looked at, so that
    /// lost devices come back one at a time.
    pub fn service_retry(&mut self, now: i64) -> (r: Option<RetryEntry>)
        ensures
            final(self).msg_queue@ == old(self).msg_queue@,
            final(self).stopped == old(self).stopped,
            (final(self).retry_queue@, r) == serviced(old(self).retry_queue@, now),
    {
        match self.retry_queue.pop_front() {
            Some(entry) => {
                assert(self.retry_queue@ =~= old(self).retry_queue@.drop_first());
                if now as i128 - entry.failed_at as i128 >= RETRY_COOLDOWN_SECS as i128 {
                    Some(entry)
                } else {
                    self.retry_queue.push_back(entry);
                    None
                }
            },
            None => None,
        }
    }
}

/// The request with which a worker reports a lost device puts exactly one
/// entry on the retry queue: it names the device's address and sub-unit, it
/// is stamped with the time of the routing, and it stands behind the entries
/// that waited before, which are left as they were.
pub proof fn lemma_lost_device_waits_once(
    queue: Seq<RetryEntry>,
    request: IPCMessage,
    addr: Seq<char>,
    slave_id: u8,
    now: i64,
)
    requires
        request@ == IPCView::PleaseReconnect(addr, slave_id),
    ensures
        retry_queue_after(queue, request, now).len() == queue.len() + 1,
        retry_queue_after(queue, request, now).drop_last() == queue,
        retry_queue_after(queue, request, now).last().addr@ == addr,
        retry_queue_after(queue, request, now).last().slave_id == slave_id,
        retry_queue_after(queue, request, now).last().failed_at == now,
{
    assert(retry_queue_after(queue, request, now).drop_last() =~= queue);
}

/// A device is only taken off the retry queue to be tried once its cooldown
/// has passed, and then it is the one at the head of the queue.
pub proof fn lemma_retry_only_when_due(queue: Seq<RetryEntry>, now: i64)
    ensures
        serviced(queue, now).1 matches Some(e) ==> {
            &&& queue.len() > 0
            &&& e == queue[0]
            &&& now - e.failed_at >= RETRY_COOLDOWN_SECS
            &&& serviced(queue, now).0 == queue.drop_first()
        },
{
}

/// A service that tries no device loses none: the queue holds the same
/// entries as before, each unchanged.
pub proof fn lemma_early_retry_keeps_entries(queue: Seq<RetryEntry>, now: i64)
    requires
        serviced(queue, now).1 is None,
    ensures
        serviced(queue, now).0.to_multiset() == queue.to_multiset(),
        serviced(queue, now).0.len() == queue.len(),
{
    if queue.len() > 0 {
        let head = queue[0];
        let tail = queue.drop_first();
        assert(queue =~= seq![head] + tail);
        assert(tail.push(head) =~= tail + seq![head]);
        vstd::seq_lib::lemma_multiset_commutative(seq![head], tail);
        vstd::seq_lib::lemma_multiset_commutative(tail, seq![head]);
    }
}

} // verus!
