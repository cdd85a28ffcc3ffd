//! Inbound protocol events, as this layer sees them.
//!
//! The transport produces one `InboundEvent` per poll; the distributor then
//! shares a copy with every live consumer handle. Events are plain data:
//! topic text, payload bytes, packet ids and quality-of-service levels.

use vstd::prelude::*;

verus! {

/// MQTT delivery guarantee level.
#[derive(Clone, Copy, PartialEq, Eq, Structural, Debug)]
pub enum QosLevel {
    AtMostOnce,
    AtLeastOnce,
    ExactlyOnce,
}

/// A protocol event coming in from the broker, relevant to this layer.
#[derive(Debug, PartialEq)]
pub enum InboundEvent {
    Connected,
    Publish { topic: String, payload: Vec<u8>, qos: QosLevel },
    PublishAck { id: u16 },
    SubscribeAck { id: u16, granted: Vec<Option<QosLevel>> },
    UnsubscribeAck { id: u16 },
    PingRequest,
    PingResponse,
    Disconnect,
}

/// Mathematical model of an inbound event: topics as character sequences,
/// payloads as byte sequences.
pub enum EventModel {
    Connected,
    Publish { topic: Seq<char>, payload: Seq<u8>, qos: QosLevel },
    PublishAck { id: u16 },
    SubscribeAck { id: u16, granted: Seq<Option<QosLevel>> },
    UnsubscribeAck { id: u16 },
    PingRequest,
    PingResponse,
    Disconnect,
}

impl View for InboundEvent {
    type V = EventModel;

    open spec fn view(&self) -> EventModel {
        match self {
            InboundEvent::Connected => EventModel::Connected,
            InboundEvent::Publish { topic, payload, qos } => EventModel::Publish {
                topic: topic@,
                payload: payload@,
                qos: *qos,
            },
            InboundEvent::PublishAck { id } => EventModel::PublishAck { id: *id },
            InboundEvent::SubscribeAck { id, granted } => EventModel::SubscribeAck {
                id: *id,
                granted: granted@,
            },
            InboundEvent::UnsubscribeAck { id } => EventModel::UnsubscribeAck { id: *id },
            InboundEvent::PingRequest => EventModel::PingRequest,
            InboundEvent::PingResponse => EventModel::PingResponse,
            InboundEvent::Disconnect => EventModel::Disconnect,
        }
    }
}

impl DeepView for InboundEvent {
    type V = EventModel;

    open spec fn deep_view(&self) -> EventModel {
        self.view()
    }
}

impl InboundEvent {
    /// An independent copy of the event, model-equal to the original; the
    /// distributor hands one to each live consumer handle.
    pub fn duplicate(&self) -> (r: InboundEvent)
        ensures
            r@ == self@,
    {
        match self {
            InboundEvent::Connected => InboundEvent::Connected,
            InboundEvent::Publish { topic, payload, qos } => {
                let payload_copy = copy_bytes(payload);
                InboundEvent::Publish {
                    topic: topic.clone(),
                    payload: payload_copy,
                    qos: *qos,
                }
            },
            InboundEvent::PublishAck { id } => InboundEvent::PublishAck { id: *id },
            InboundEvent::SubscribeAck { id, granted } => {
                let granted_copy = copy_granted(granted);
                InboundEvent::SubscribeAck { id: *id, granted: granted_copy }
            },
            InboundEvent::UnsubscribeAck { id } => InboundEvent::UnsubscribeAck { id: *id },
            InboundEvent::PingRequest => InboundEvent::PingRequest,
            InboundEvent::PingResponse => InboundEvent::PingResponse,
            InboundEvent::Disconnect => InboundEvent::Disconnect,
        }
    }
}

fn copy_bytes(v: &Vec<u8>) -> (r: Vec<u8>)
    ensures
        r@ == v@,
{
    let mut r: Vec<u8> = Vec::new();
    let mut i: usize = 0;
    while i < v.len()
        invariant
            i <= v.len(),
            r@ =~= v@.take(i as int),
        decreases v.len() - i,
    {
        r.push(v[i]);
        i = i + 1;
    }
    assert(r@ =~= v@);
    r
}

fn copy_granted(v: &Vec<Option<QosLevel>>) -> (r: Vec<Option<QosLevel>>)
    ensures
        r@ == v@,
{
    let mut r: Vec<Option<QosLevel>> = Vec::new();
    let mut i: usize = 0;
    while i < v.len()
        invariant
            i <= v.len(),
            r@ =~= v@.take(i as int),
        decreases v.len() - i,
    {
        r.push(v[i]);
        i = i + 1;
    }
    assert(r@ =~= v@);
    r
}

} // verus!
