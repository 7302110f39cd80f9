//! The sink adapter: what stands between the supervisor and the telemetry
//! bus. It queues telemetry for the bus, turns what arrives on the input
//! topics into writes, and keeps track of what the bus has yet to confirm.

use std::collections::VecDeque;
use vstd::prelude::*;
use vstd::string::*;
use crate::gateway_error::GatewayError;
use crate::ipc::{IPCMessage, InboundMessage, InboundView, PublishMessage};
use crate::topics::{input_topic_parts, parse_input_topic};

verus! {

/// What the client of the bus reports, as far as the adapter acts on it.
#[derive(Clone, Debug)]
pub enum BusEvent {
    /// The broker closed the connection.
    Disconnect,
    /// The broker confirmed the publish with this packet identifier.
    PubAck(u16),
    /// A message arrived on a subscribed topic.
    Publish { topic: String, payload: String },
    /// A publish with this packet identifier went out.
    PublishSent(u16),
    /// Anything else: keep-alives, confirmations of the connection and of
    /// subscriptions.
    Other,
}

/// What follows from a report of the client.
#[derive(Clone, Debug)]
pub enum BusAction {
    /// Nothing.
    Continue,
    /// The connection is gone: the event loop ends.
    Stop,
    /// Hand this write to the supervisor.
    Forward(IPCMessage),
    /// The message arrived on a topic that names no point and is dropped.
    Unroutable,
}

/// What follows from a message that reached the adapter.
#[derive(Clone, Debug)]
pub enum SinkAction {
    /// Carry on.
    Continue,
    /// Disconnect from the bus and end with this result.
    Exit(GatewayError),
}

/// How one publish ended.
#[derive(Clone, Copy, Debug, PartialEq, Eq, Structural)]
pub enum PublishOutcome {
    Sent,
    /// The client refused the message.
    Failed,
    /// The client did not take the message in time.
    TimedOut,
}

/// The state of the adapter.
#[derive(Clone, Debug)]
pub struct SinkAdapter {
    /// Telemetry that awaits the bus, oldest first.
    pub outbound: VecDeque<PublishMessage>,
    /// Packet identifiers of the publishes that the broker has yet to
    /// confirm, in the order in which they went out.
    pub unconfirmed: Vec<u16>,
}

/// The write that a message on an input topic stands for.
pub open spec fn inbound_of(topic: Seq<char>, payload: Seq<char>) -> Option<InboundView> {
    match parse_input_topic(topic) {
        Some((sn, model, point)) => Some(
            InboundView { serial_number: sn, model, point_name: point, payload },
        ),
        None => None,
    }
}

/// Turns a message that arrived on an input topic into a write.
pub fn inbound_from_topic(topic: &str, payload: String) -> (r: Option<InboundMessage>)
    ensures
        match r {
            Some(m) => inbound_of(topic@, payload@) == Some(m@),
            None => inbound_of(topic@, payload@) is None,
        },
{
    match input_topic_parts(topic) {
        Some((sn, model, point)) => Some(
            InboundMessage {
                serial_number: sn.to_owned(),
                model: model.to_owned(),
                point_name: point.to_owned(),
                payload,
            },
        ),
        None => None,
    }
}

/// Whether the end of a publish is worth an error in the log. However a
/// publish ended, its message is not offered to the bus again.
pub fn is_publish_error(outcome: PublishOutcome) -> (r: bool)
    ensures
        r == (outcome != PublishOutcome::Sent),
{
    match outcome {
        PublishOutcome::Sent => false,
        _ => true,
    }
}

impl SinkAdapter {
    /// An adapter with nothing queued and nothing unconfirmed.
    pub fn new() -> (r: SinkAdapter)
        ensures
            r.outbound@.len() == 0,
            r.unconfirmed@.len() == 0,
    {
        SinkAdapter { outbound: VecDeque::new(), unconfirmed: Vec::new() }
    }

    /// Takes a report of the client of the bus.
    ///
    /// A publish that went out is remembered until the broker confirms it. A
    /// message that arrived becomes a write for the supervisor, where its
    /// topic names a point. A disconnect ends the event loop.
    pub fn on_event(&mut self, event: BusEvent) -> (r: BusAction)
        ensures
            final(self).outbound@ == old(self).outbound@,
            match event {
                BusEvent::Disconnect => {
                    &&& r is Stop
                    &&& final(self).unconfirmed@ == old(self).unconfirmed@
                },
                BusEvent::PubAck(id) => {
                    &&& r is Continue
                    &&& final(self).unconfirmed@ == old(self).unconfirmed@.filter(
                        |x: u16| x != id,
                    )
                },
                BusEvent::PublishSent(id) => {
                    &&& r is Continue
                    &&& final(self).unconfirmed@ == old(self).unconfirmed@.push(id)
                },
                BusEvent::Publish { topic, payload } => {
                    &&& final(self).unconfirmed@ == old(self).unconfirmed@
                    &&& match inbound_of(topic@, payload@) {
                        Some(v) => {
                            &&& r matches BusAction::Forward(IPCMessage::Inbound(m))
                            &&& m@ == v
                        },
                        None => r is Unroutable,
                    }
                },
                BusEvent::Other => {
                    &&& r is Continue
                    &&& final(self).unconfirmed@ == old(self).unconfirmed@
                },
            },
    {
        match event {
            BusEvent::Disconnect => BusAction::Stop,
            BusEvent::PubAck(id) => {
                self.confirm(id);
                BusAction::Continue
            },
            BusEvent::PublishSent(id) => {
                self.unconfirmed.push(id);
                BusAction::Continue
            },
            BusEvent::Publish { topic, payload } => {
                match inbound_from_topic(topic.as_str(), payload) {
                    Some(m) => BusAction::Forward(IPCMessage::Inbound(m)),
                    None => BusAction::Unroutable,
                }
            },
            BusEvent::Other => BusAction::Continue,
        }
    }

    /// Forgets the publishes with the packet identifier `id`, which the
    /// broker has confirmed. The others keep their order.
    fn confirm(&mut self, id: u16)
        ensures
            final(self).outbound@ == old(self).outbound@,
            final(self).unconfirmed@ == old(self).unconfirmed@.filter(|x: u16| x != id),
    {
        let ghost keep = |x: u16| x != id;
        let mut left: Vec<u16> = Vec::new();
        let n: usize = self.unconfirmed.len();
        let mut i: usize = 0;
        assert(self.unconfirmed@.take(0).filter(keep) =~= Seq::<u16>::empty());
        while i < n
            invariant
                n == self.unconfirmed@.len(),
                i <= n,
                self.unconfirmed@ == old(self).unconfirmed@,
                self.outbound@ == old(self).outbound@,
                keep == (|x: u16| x != id),
                left@ == self.unconfirmed@.take(i as int).filter(keep),
            decreases n - i,
        {
            let x = self.unconfirmed[i];
            proof {
                assert(self.unconfirmed@.take(i + 1) =~= self.unconfirmed@.take(i as int).push(x));
                self.unconfirmed@.take(i as int).lemma_filter_push(x, keep);
            }
            if x != id {
                left.push(x);
            }
            i = i + 1;
        }
        assert(self.unconfirmed@.take(n as int) =~= self.unconfirmed@);
        self.unconfirmed = left;
    }

    /// Takes a message from the supervisor.
    ///
    /// Telemetry joins the queue for the bus. A shutdown ends the adapter
    /// with the result that tells an exit by request from a failure; a
    /// worker's error ends it as a failure. Nothing else is meant for the
    /// adapter and nothing else changes it.
    pub fn on_message(&mut self, msg: IPCMessage) -> (r: SinkAction)
        ensures
            final(self).unconfirmed@ == old(self).unconfirmed@,
            match msg {
                IPCMessage::Outbound(m) => {
                    &&& r is Continue
                    &&& final(self).outbound@ == old(self).outbound@.push(m)
                },
                IPCMessage::Shutdown => {
                    &&& r matches SinkAction::Exit(e)
                    &&& e is ExitingThread
                    &&& final(self).outbound@ == old(self).outbound@
                },
                IPCMessage::Error(_) => {
                    &&& r matches SinkAction::Exit(e)
                    &&& e is Unspecified
                    &&& final(self).outbound@ == old(self).outbound@
                },
                _ => {
                    &&& r is Continue
                    &&& final(self).outbound@ == old(self).outbound@
                },
            },
    {
        match msg {
            IPCMessage::Outbound(m) => {
                self.outbound.push_back(m);
                SinkAction::Continue
            },
            IPCMessage::Shutdown => SinkAction::Exit(GatewayError::ExitingThread),
            IPCMessage::Error(_) => SinkAction::Exit(GatewayError::Unspecified),
            _ => SinkAction::Continue,
        }
    }

    /// Takes a message from the control bus, of which only the shutdown
    /// concerns the adapter.
    pub fn on_broadcast(&self, msg: &IPCMessage) -> (r: SinkAction)
        ensures
            match *msg {
                IPCMessage::Shutdown => r matches SinkAction::Exit(e) && e is ExitingThread,
                _ => r is Continue,
            },
    {
        match msg {
            IPCMessage::Shutdown => SinkAction::Exit(GatewayError::ExitingThread),
            _ => SinkAction::Continue,
        }
    }

    /// Takes the oldest telemetry off the queue for the bus. What is taken
    /// is offered to the bus once and never comes back to the queue.
    pub fn next_outbound(&mut self) -> (r: Option<PublishMessage>)
        ensures
            final(self).unconfirmed@ == old(self).unconfirmed@,
            match r {
                Some(m) => {
                    &&& old(self).outbound@.len() > 0
                    &&& m == old(self).outbound@[0]
                    &&& final(self).outbound@ == old(self).outbound@.drop_first()
                },
                None => {
                    &&& old(self).outbound@.len() == 0
                    &&& final(self).outbound@ == old(self).outbound@
                },
            },
    {
        let r = self.outbound.pop_front();
        proof {
            if r is Some {
                assert(self.outbound@ =~= old(self).outbound@.drop_first());
            }
        }
        r
    }
}

} // verus!
