//! The handler capability and the one handler variant the system ships.
//!
//! A handler answers for exactly one topic. Instead of talking to the broker
//! itself, it returns the requests it wants performed: `subscribe` yields the
//! subscription for its topic, and `call_async` yields the publishes it makes
//! in reaction to one inbound message. Further variants combine into an enum
//! that implements [`MqttHandler`] and register like any other handler.

use vstd::prelude::*;
use vstd::string::StrSliceExecFns;
use vstd::string::StringSliceAdditionalSpecFns;

use crate::messages::PublishRequest;
use crate::messages::PublishView;
use crate::messages::QosLevel;
use crate::messages::SubscribeRequest;

verus! {

/// One unit of behavior bound to one topic.
///
/// `spec_path`, `spec_qos` and `spec_replies` are the variant's mathematical
/// description; the three executable methods are each pinned to it.
pub trait MqttHandler: Sized {
    /// The topic this variant answers for.
    spec fn spec_path(&self) -> Seq<char>;

    /// The delivery level this variant subscribes at.
    spec fn spec_qos(&self) -> QosLevel;

    /// The publishes this variant performs for one inbound message.
    spec fn spec_replies(&self) -> Seq<PublishView>;

    /// The topic this handler answers for.
    fn path(&self) -> (r: String)
        ensures
            r@ == self.spec_path(),
    ;

    /// The subscription to issue for this handler at registration time.
    fn subscribe(&self) -> (r: SubscribeRequest)
        ensures
            r@.topic == self.spec_path(),
            r@.qos == self.spec_qos(),
    ;

    /// React to one inbound message on this handler's topic: the returned
    /// publishes are this dispatch unit's replies, to be performed on the
    /// shared connection.
    fn call_async(&self) -> (r: Vec<PublishRequest>)
        ensures
            r.deep_view() == self.spec_replies(),
    ;
}

/// The shipped example variant: answers on `hello/world` and replies with a
/// fixed greeting on `hello/back`.
#[derive(Clone, Copy)]
pub struct HelloHandler;

/// The single publish that the hello handler performs for any inbound
/// message on its topic.
pub open spec fn hello_reply() -> PublishView {
    PublishView {
        topic: "hello/back"@,
        qos: QosLevel::AtLeastOnce,
        retain: false,
        payload: "Hello back!".spec_bytes(),
    }
}

impl MqttHandler for HelloHandler {
    open spec fn spec_path(&self) -> Seq<char> {
        "hello/world"@
    }

    open spec fn spec_qos(&self) -> QosLevel {
        QosLevel::AtMostOnce
    }

    open spec fn spec_replies(&self) -> Seq<PublishView> {
        seq![hello_reply()]
    }

    fn path(&self) -> (r: String) {
        "hello/world".to_owned()
    }

    fn subscribe(&self) -> (r: SubscribeRequest) {
        SubscribeRequest { topic: "hello/world".to_owned(), qos: QosLevel::AtMostOnce }
    }

    fn call_async(&self) -> (r: Vec<PublishRequest>) {
        let mut replies: Vec<PublishRequest> = Vec::new();
        replies.push(hello_handler());
        proof {
            assert(replies.deep_view() =~= seq![hello_reply()]);
        }
        replies
    }
}

/// The single publish an echo-style handler performs: the configured
/// payload on its reply topic, at-least-once, not retained.
pub open spec fn echo_reply(reply_topic: Seq<char>, payload: Seq<u8>) -> PublishView {
    PublishView { topic: reply_topic, qos: QosLevel::AtLeastOnce, retain: false, payload }
}

/// A configurable echo-style variant: answers on one topic and replies
/// with one fixed payload on a reply topic. [`HelloHandler`] is the fixed
/// `hello/world` instance of this behavior; this variant lets a route
/// table hold any number of such handlers side by side.
pub struct EchoHandler {
    path: String,
    reply_topic: String,
    payload: Vec<u8>,
}

impl EchoHandler {
    /// An echo handler answering on `path`, replying with `payload` on
    /// `reply_topic`.
    pub fn new(path: String, reply_topic: String, payload: Vec<u8>) -> (r: Self)
        ensures
            r.spec_path() == path@,
            r.spec_qos() == QosLevel::AtMostOnce,
            r.spec_replies() == seq![echo_reply(reply_topic@, payload@)],
    {
        EchoHandler { path, reply_topic, payload }
    }
}

impl MqttHandler for EchoHandler {
    closed spec fn spec_path(&self) -> Seq<char> {
        self.path@
    }

    closed spec fn spec_qos(&self) -> QosLevel {
        QosLevel::AtMostOnce
    }

    closed spec fn spec_replies(&self) -> Seq<PublishView> {
        seq![echo_reply(self.reply_topic@, self.payload@)]
    }

    fn path(&self) -> (r: String) {
        self.path.clone()
    }

    fn subscribe(&self) -> (r: SubscribeRequest) {
        SubscribeRequest { topic: self.path.clone(), qos: QosLevel::AtMostOnce }
    }

    fn call_async(&self) -> (r: Vec<PublishRequest>) {
        let mut replies: Vec<PublishRequest> = Vec::new();
        replies.push(
            PublishRequest {
                topic: self.reply_topic.clone(),
                qos: QosLevel::AtLeastOnce,
                retain: false,
                payload: vstd::slice::slice_to_vec(self.payload.as_slice()),
            },
        );
        proof {
            assert(replies.deep_view() =~= seq![echo_reply(self.reply_topic@, self.payload@)]);
        }
        replies
    }
}

/// The greeting publish itself: one message saying `Hello back!` on the
/// reply topic `hello/back`, at-least-once, not retained.
pub fn hello_handler() -> (r: PublishRequest)
    ensures
        r@ == hello_reply(),
{
    PublishRequest {
        topic: "hello/back".to_owned(),
        qos: QosLevel::AtLeastOnce,
        retain: false,
        payload: "Hello back!".as_bytes_vec(),
    }
}

/// Fixed-table dispatch over the one known topic: an inbound message on
/// `hello/world` yields the greeting publish, any other topic is refused.
pub fn handle(topic: String) -> (r: Result<PublishRequest, ()>)
    ensures
        topic@ == "hello/world"@ ==> (r matches Ok(p) && p@ == hello_reply()),
        topic@ != "hello/world"@ ==> r is Err,
{
    let known: String = "hello/world".to_owned();
    if topic == known {
        Ok(hello_handler())
    } else {
        Err(())
    }
}

} // verus!
