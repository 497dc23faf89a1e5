use mqtt_router::DispatchOutcome;
use mqtt_router::EchoHandler;
use mqtt_router::HelloHandler;
use mqtt_router::MqttHandler;
use mqtt_router::MqttRouter;
use mqtt_router::QosLevel;
use mqtt_router::UnitStatus;

fn echo(path: &str, reply_topic: &str, payload: &[u8]) -> EchoHandler {
    EchoHandler::new(path.to_string(), reply_topic.to_string(), payload.to_vec())
}

#[test]
fn empty_router_has_no_routes() {
    let router: MqttRouter<HelloHandler> = MqttRouter::new();
    assert_eq!(router.topics().len(), 0);
    let outcome = router.handle_request("hello/world".to_string());
    assert!(matches!(outcome, DispatchOutcome::NoRoute));
}

#[test]
fn registration_is_deterministic_and_ordered() {
    let mut router: MqttRouter<EchoHandler> = MqttRouter::new();
    router.add_route(echo("alpha", "alpha/reply", b"a"));
    router.add_route(echo("beta", "beta/reply", b"b"));
    router.add_route(echo("gamma", "gamma/reply", b"c"));
    let topics = router.topics();
    assert_eq!(topics, vec!["alpha", "beta", "gamma"]);
}

#[test]
fn registration_returns_subscribe_request() {
    let mut router: MqttRouter<HelloHandler> = MqttRouter::new();
    let req = router.add_route(HelloHandler);
    assert_eq!(req.topic, "hello/world");
    assert_eq!(req.qos, QosLevel::AtMostOnce);
}

#[test]
fn overwrite_replaces_the_handler() {
    let mut router: MqttRouter<EchoHandler> = MqttRouter::new();
    router.add_route(echo("sensor/data", "old/reply", b"old"));
    router.add_route(echo("sensor/data", "new/reply", b"new"));
    // still a single route, in its original place
    assert_eq!(router.topics(), vec!["sensor/data"]);
    // dispatch follows the new handler alone
    match router.handle_request("sensor/data".to_string()) {
        DispatchOutcome::Handled { replies } => {
            assert_eq!(replies.len(), 1);
            assert_eq!(replies[0].topic, "new/reply");
            assert_eq!(replies[0].payload, b"new".to_vec());
        }
        DispatchOutcome::NoRoute => panic!("route disappeared"),
    }
}

#[test]
fn dispatch_invokes_the_registered_handler_once() {
    let mut router: MqttRouter<HelloHandler> = MqttRouter::new();
    router.add_route(HelloHandler);
    match router.handle_request("hello/world".to_string()) {
        DispatchOutcome::Handled { replies } => {
            assert_eq!(replies.len(), 1);
            assert_eq!(replies[0].topic, "hello/back");
        }
        DispatchOutcome::NoRoute => panic!("registered topic not dispatched"),
    }
}

#[test]
fn dispatch_of_unknown_topic_is_a_noop() {
    let mut router: MqttRouter<HelloHandler> = MqttRouter::new();
    router.add_route(HelloHandler);
    let outcome = router.handle_request("unknown/topic".to_string());
    assert!(matches!(outcome, DispatchOutcome::NoRoute));
}

#[test]
fn failed_unit_does_not_affect_later_dispatch() {
    let mut router: MqttRouter<EchoHandler> = MqttRouter::new();
    router.add_route(echo("first/topic", "first/reply", b"one"));
    router.add_route(echo("second/topic", "second/reply", b"two"));

    // first unit: its only publish fails
    let first = router.handle_request("first/topic".to_string());
    assert!(matches!(first, DispatchOutcome::Handled { .. }));
    let status = mqtt_router::finish_dispatch(&vec![false]);
    assert_eq!(status, UnitStatus::PublishFailed);

    // an unrelated dispatch afterward succeeds untouched
    match router.handle_request("second/topic".to_string()) {
        DispatchOutcome::Handled { replies } => {
            assert_eq!(replies.len(), 1);
            assert_eq!(replies[0].topic, "second/reply");
            assert_eq!(replies[0].payload, b"two".to_vec());
        }
        DispatchOutcome::NoRoute => panic!("unrelated route was affected"),
    }
}

#[test]
fn finish_dispatch_completes_only_when_all_publishes_succeed() {
    assert_eq!(mqtt_router::finish_dispatch(&vec![]), UnitStatus::Completed);
    assert_eq!(mqtt_router::finish_dispatch(&vec![true, true]), UnitStatus::Completed);
    assert_eq!(mqtt_router::finish_dispatch(&vec![true, false, true]), UnitStatus::PublishFailed);
}

#[test]
fn echo_scenario_hello_world() {
    // register echo handler at "hello/world" with reply topic "hello/back";
    // an inbound message there yields exactly one publish: "Hello back!".
    let mut router: MqttRouter<EchoHandler> = MqttRouter::new();
    let handler = echo("hello/world", "hello/back", b"Hello back!");
    let sub = router.add_route(handler);
    assert_eq!(sub.topic, "hello/world");
    assert_eq!(sub.qos, QosLevel::AtMostOnce);
    match router.handle_request("hello/world".to_string()) {
        DispatchOutcome::Handled { replies } => {
            assert_eq!(replies.len(), 1);
            assert_eq!(replies[0].topic, "hello/back");
            assert_eq!(replies[0].payload, b"Hello back!".to_vec());
            assert_eq!(replies[0].qos, QosLevel::AtLeastOnce);
            assert!(!replies[0].retain);
        }
        DispatchOutcome::NoRoute => panic!("echo handler not dispatched"),
    }
}

#[test]
fn hello_handler_publishes_the_greeting() {
    let p = mqtt_router::hello_handler();
    assert_eq!(p.topic, "hello/back");
    assert_eq!(p.payload, b"Hello back!".to_vec());
    assert_eq!(p.qos, QosLevel::AtLeastOnce);
    assert!(!p.retain);

    let h = HelloHandler;
    assert_eq!(h.path(), "hello/world");
    let sub = h.subscribe();
    assert_eq!(sub.topic, "hello/world");
    assert_eq!(sub.qos, QosLevel::AtMostOnce);
    let replies = h.call_async();
    assert_eq!(replies.len(), 1);
    assert_eq!(replies[0].topic, "hello/back");
}

#[test]
fn echo_handler_capability_methods() {
    let h = echo("sensor/in", "sensor/out", b"ack");
    assert_eq!(h.path(), "sensor/in");
    let sub = h.subscribe();
    assert_eq!(sub.topic, "sensor/in");
    assert_eq!(sub.qos, QosLevel::AtMostOnce);
    let replies = h.call_async();
    assert_eq!(replies.len(), 1);
    assert_eq!(replies[0].topic, "sensor/out");
    assert_eq!(replies[0].payload, b"ack".to_vec());
    assert_eq!(replies[0].qos, QosLevel::AtLeastOnce);
    assert!(!replies[0].retain);
}

#[test]
fn handle_routes_only_the_known_topic() {
    let ok = mqtt_router::handle("hello/world".to_string());
    match ok {
        Ok(p) => {
            assert_eq!(p.topic, "hello/back");
            assert_eq!(p.payload, b"Hello back!".to_vec());
        }
        Err(()) => panic!("known topic refused"),
    }
    assert!(mqtt_router::handle("hello/there".to_string()).is_err());
}
