//! Messages that travel between the device workers, the supervisor and the
//! sink adapter.

use vstd::prelude::*;
use vstd::string::*;
use crate::payload::{Payload, PayloadView};

verus! {

/// A write that arrived from outside for one point of one device.
#[derive(Clone, Debug)]
pub struct InboundMessage {
    pub serial_number: String,
    pub model: String,
    pub point_name: String,
    pub payload: String,
}

/// The content of an [`InboundMessage`].
pub struct InboundView {
    pub serial_number: Seq<char>,
    pub model: Seq<char>,
    pub point_name: Seq<char>,
    pub payload: Seq<char>,
}

impl View for InboundMessage {
    type V = InboundView;

    open spec fn view(&self) -> InboundView {
        InboundView {
            serial_number: self.serial_number@,
            model: self.model@,
            point_name: self.point_name@,
            payload: self.payload@,
        }
    }
}

/// Telemetry on its way to the bus.
#[derive(Clone, Debug)]
pub struct PublishMessage {
    pub topic: String,
    pub payload: Payload,
}

/// The content of a [`PublishMessage`].
pub struct PublishView {
    pub topic: Seq<char>,
    pub payload: PayloadView,
}

impl View for PublishMessage {
    type V = PublishView;

    open spec fn view(&self) -> PublishView {
        PublishView { topic: self.topic@, payload: self.payload@ }
    }
}

/// An error that a worker could not handle itself.
#[derive(Clone, Debug)]
pub struct IPCError {
    pub serial_number: String,
    pub msg: String,
}

/// What is carried on the channels of the gateway.
#[derive(Clone, Debug)]
pub enum IPCMessage {
    /// A write from outside, on its way to the workers.
    Inbound(InboundMessage),
    /// Telemetry, on its way from a worker to the sink.
    Outbound(PublishMessage),
    /// A worker lost the device at this address and sub-unit.
    PleaseReconnect(String, u8),
    /// A worker met an error it cannot recover from.
    Error(IPCError),
    /// Every receiver cleans up and ends.
    Shutdown,
}

/// The content of an [`IPCMessage`].
pub enum IPCView {
    Inbound(InboundView),
    Outbound(PublishView),
    PleaseReconnect(Seq<char>, u8),
    Error(Seq<char>, Seq<char>),
    Shutdown,
}

impl View for IPCMessage {
    type V = IPCView;

    open spec fn view(&self) -> IPCView {
        match self {
            IPCMessage::Inbound(m) => IPCView::Inbound(m@),
            IPCMessage::Outbound(m) => IPCView::Outbound(m@),
            IPCMessage::PleaseReconnect(addr, slave) => IPCView::PleaseReconnect(addr@, *slave),
            IPCMessage::Error(e) => IPCView::Error(e.serial_number@, e.msg@),
            IPCMessage::Shutdown => IPCView::Shutdown,
        }
    }
}

/// The contents of a list of telemetry messages.
pub open spec fn publish_views(v: Seq<PublishMessage>) -> Seq<PublishView> {
    v.map_values(|m: PublishMessage| m@)
}

} // verus!
