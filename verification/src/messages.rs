//! Plain-value descriptions of the broker operations that handlers and the
//! router ask for: a subscription to a topic and a publish of a payload.
//!
//! The library never talks to the broker itself; it returns these requests
//! and the surrounding binary performs them on the live connection.

use vstd::prelude::*;

verus! {

/// The broker's delivery-guarantee tier, chosen at subscribe or publish time.
#[derive(Clone, Copy, PartialEq, Eq, Structural, Debug)]
pub enum QosLevel {
    AtMostOnce,
    AtLeastOnce,
    ExactlyOnce,
}

/// A request to subscribe the connection to one topic at a delivery level.
pub struct SubscribeRequest {
    pub topic: String,
    pub qos: QosLevel,
}

/// A request to publish one payload to a topic at a delivery level.
pub struct PublishRequest {
    pub topic: String,
    pub qos: QosLevel,
    pub retain: bool,
    pub payload: Vec<u8>,
}

/// The mathematical value of a [`PublishRequest`]: the same fields with the
/// strings and byte vectors replaced by their sequences.
pub ghost struct PublishView {
    pub topic: Seq<char>,
    pub qos: QosLevel,
    pub retain: bool,
    pub payload: Seq<u8>,
}

impl View for PublishRequest {
    type V = PublishView;

    open spec fn view(&self) -> PublishView {
        PublishView {
            topic: self.topic@,
            qos: self.qos,
            retain: self.retain,
            payload: self.payload@,
        }
    }
}

impl DeepView for PublishRequest {
    type V = PublishView;

    open spec fn deep_view(&self) -> PublishView {
        self.view()
    }
}

/// The mathematical value of a [`SubscribeRequest`].
pub ghost struct SubscribeView {
    pub topic: Seq<char>,
    pub qos: QosLevel,
}

impl View for SubscribeRequest {
    type V = SubscribeView;

    open spec fn view(&self) -> SubscribeView {
        SubscribeView { topic: self.topic@, qos: self.qos }
    }
}

} // verus!
