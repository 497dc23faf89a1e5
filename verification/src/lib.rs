//! A topic-dispatch layer for a publish/subscribe broker connection.
//!
//! The library holds the verified core of the system: the route table that
//! binds topic strings to handlers, the dispatch path that looks a topic up
//! and produces the handler's publish actions, and the poll-loop state
//! machine that decides, for each connection event, whether to dispatch,
//! ignore, or terminate. Performing the network side of those decisions
//! (subscribing, publishing, polling the broker) is left to the surrounding
//! binary, which feeds plain values in and carries the returned actions out.

mod handler;
mod messages;
mod poll_loop;
mod router;
mod routes;

pub use handler::echo_reply;
pub use handler::handle;
pub use handler::hello_handler;
pub use handler::hello_reply;
pub use handler::EchoHandler;
pub use handler::HelloHandler;
pub use handler::MqttHandler;
pub use messages::PublishRequest;
pub use messages::PublishView;
pub use messages::QosLevel;
pub use messages::SubscribeRequest;
pub use messages::SubscribeView;
pub use poll_loop::contains_failure;
pub use poll_loop::lemma_fatal_on_connection_error;
pub use poll_loop::lemma_poll_never_blocks;
pub use poll_loop::lemma_terminated_absorbing;
pub use poll_loop::poll_step;
pub use poll_loop::process_events;
pub use poll_loop::run_loop;
pub use poll_loop::step_action;
pub use poll_loop::step_spec;
pub use poll_loop::ConnectionEvent;
pub use poll_loop::LoopState;
pub use poll_loop::PollAction;
pub use router::dispatch_spec;
pub use router::empty_table;
pub use router::finish_dispatch;
pub use router::lemma_dispatch_isolation;
pub use router::lemma_overwrite;
pub use router::lemma_registration_determinism;
pub use router::table_after;
pub use router::DispatchOutcome;
pub use router::MqttRouter;
pub use router::UnitStatus;
