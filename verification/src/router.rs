//! The router: owner of the route table, with registration and dispatch.
//!
//! Registration binds a handler to its topic, replacing any earlier handler
//! of the same topic, and yields the subscription request to perform on the
//! broker. Dispatch looks an inbound topic up and yields the registered
//! handler's replies; an unknown topic is dropped without failure. The table
//! is meant to be fully populated before polling begins and is read-only
//! during dispatch, so `handle_request` borrows the router immutably and any
//! number of dispatch units may share it.

use vstd::prelude::*;

use crate::handler::MqttHandler;
use crate::messages::PublishRequest;
use crate::messages::PublishView;
use crate::messages::SubscribeRequest;
use crate::routes::map_of;
use crate::routes::order_of;
use crate::routes::routes_get;
use crate::routes::routes_insert;
use crate::routes::routes_keys;
use crate::routes::routes_new;

verus! {

/// What one dispatch came to.
pub enum DispatchOutcome {
    /// A handler answers for the topic; these are the publishes its dispatch
    /// unit is to perform.
    Handled { replies: Vec<PublishRequest> },
    /// No handler answers for the topic. Not a failure: the message is
    /// dropped and the system goes on.
    NoRoute,
}

/// A route table with nothing registered.
pub open spec fn empty_table<H>() -> Map<Seq<char>, H> {
    Map::empty()
}

/// What dispatching `topic` against the table `m` comes to: the registered
/// handler's replies, or nothing when no handler answers for the topic.
pub open spec fn dispatch_spec<H: MqttHandler>(m: Map<Seq<char>, H>, topic: Seq<char>) -> Option<
    Seq<PublishView>,
> {
    if m.contains_key(topic) {
        Some(m[topic].spec_replies())
    } else {
        None
    }
}

/// The table that a sequence of registrations leaves behind: starting from
/// `m`, each handler of `hs` in turn is inserted under its own topic,
/// replacing any earlier entry there, exactly as `add_route` does.
pub open spec fn table_after<H: MqttHandler>(m: Map<Seq<char>, H>, hs: Seq<H>) -> Map<
    Seq<char>,
    H,
>
    decreases hs.len(),
{
    if hs.len() == 0 {
        m
    } else {
        table_after(m, hs.drop_last()).insert(hs.last().spec_path(), hs.last())
    }
}

/// Registration determinism: registering any sequence of handlers with
/// pairwise distinct topics into an empty table leaves exactly one entry
/// per registration — the table's domain is exactly the registered topics,
/// its size is the number of registrations, and each topic is mapped to the
/// handler registered for it.
pub proof fn lemma_registration_determinism<H: MqttHandler>(hs: Seq<H>)
    requires
        forall|i: int, j: int| 0 <= i < j < hs.len() ==> hs[i].spec_path() != hs[j].spec_path(),
    ensures
        table_after(empty_table::<H>(), hs).dom().finite(),
        table_after(empty_table::<H>(), hs).dom().len() == hs.len(),
        forall|i: int|
            0 <= i < hs.len() ==> #[trigger] table_after(empty_table::<H>(), hs).contains_key(
                hs[i].spec_path(),
            ) && table_after(empty_table::<H>(), hs)[hs[i].spec_path()] == hs[i],
        forall|t: Seq<char>| #[trigger]
            table_after(empty_table::<H>(), hs).contains_key(t) ==> exists|i: int|
                0 <= i < hs.len() && hs[i].spec_path() == t,
    decreases hs.len(),
{
    broadcast use vstd::set::axiom_set_insert_len;

    if hs.len() == 0 {
    } else {
        let prefix = hs.drop_last();
        let last = hs.last();
        let before = table_after(empty_table::<H>(), prefix);
        lemma_registration_determinism::<H>(prefix);
        assert(!before.contains_key(last.spec_path())) by {
            if before.contains_key(last.spec_path()) {
                let i = choose|i: int|
                    0 <= i < prefix.len() && prefix[i].spec_path() == last.spec_path();
                assert(hs[i].spec_path() != hs[hs.len() - 1].spec_path());
                assert(false);
            }
        }
        assert(table_after(empty_table::<H>(), hs).dom().len() == hs.len());
        assert forall|i: int| 0 <= i < hs.len() implies #[trigger] table_after(
            empty_table::<H>(),
            hs,
        ).contains_key(hs[i].spec_path()) && table_after(empty_table::<H>(), hs)[hs[i].spec_path()]
            == hs[i] by {
            if i < hs.len() - 1 {
                assert(prefix[i] == hs[i]);
                assert(before.contains_key(prefix[i].spec_path()) && before[prefix[i].spec_path()]
                    == prefix[i]);
                assert(hs[i].spec_path() != hs[hs.len() - 1].spec_path());
            }
        }
        assert forall|t: Seq<char>| #[trigger]
            table_after(empty_table::<H>(), hs).contains_key(t) implies exists|i: int|
            0 <= i < hs.len() && hs[i].spec_path() == t by {
            if t == last.spec_path() {
                assert(hs[hs.len() - 1].spec_path() == t);
            } else {
                assert(before.contains_key(t));
                let i = choose|i: int| 0 <= i < prefix.len() && prefix[i].spec_path() == t;
                assert(hs[i].spec_path() == t);
            }
        }
    }
}

/// Overwrite: a second registration for an already-present topic replaces
/// the earlier handler, and dispatch at that topic afterward follows the
/// replacement alone.
pub proof fn lemma_overwrite<H: MqttHandler>(m: Map<Seq<char>, H>, h1: H, h2: H)
    requires
        h1.spec_path() == h2.spec_path(),
    ensures
        table_after(m, seq![h1, h2]) == m.insert(h1.spec_path(), h1).insert(h2.spec_path(), h2),
        table_after(m, seq![h1, h2])[h2.spec_path()] == h2,
        dispatch_spec(table_after(m, seq![h1, h2]), h2.spec_path()) == Some(h2.spec_replies()),
{
    let both = seq![h1, h2];
    let one = seq![h1];
    assert(both.drop_last() =~= one);
    assert(one.drop_last() =~= Seq::<H>::empty());
    assert(table_after(m, Seq::<H>::empty()) == m);
    assert(table_after(m, one) == m.insert(h1.spec_path(), h1));
    assert(table_after(m, both) == table_after(m, one).insert(h2.spec_path(), h2));
}

/// How one dispatch unit ended: every publish carried out, or cut short by
/// a publish failure. A failed unit is a local matter; no other unit and
/// not the poll loop reads it.
#[derive(Clone, Copy, PartialEq, Eq, Structural, Debug)]
pub enum UnitStatus {
    Completed,
    PublishFailed,
}

/// Fold the results of one dispatch unit's publish attempts into that
/// unit's status: completed exactly when every publish went through.
pub fn finish_dispatch(results: &Vec<bool>) -> (r: UnitStatus)
    ensures
        (r is Completed) <==> (forall|i: int| 0 <= i < results@.len() ==> results@[i]),
{
    let mut i: usize = 0;
    while i < results.len()
        invariant
            i <= results@.len(),
            forall|j: int| 0 <= j < i ==> results@[j],
        decreases results@.len() - i,
    {
        if !results[i] {
            return UnitStatus::PublishFailed;
        }
        i += 1;
    }
    UnitStatus::Completed
}

/// Isolation: a dispatch unit's failure stays its own. Whatever status any
/// earlier unit ended with, dispatching an unrelated topic is still the
/// route table's own answer for that topic — the table is read-only during
/// dispatch and no unit's status is an input to another's.
pub proof fn lemma_dispatch_isolation<H: MqttHandler>(
    m: Map<Seq<char>, H>,
    earlier: UnitStatus,
    topic: Seq<char>,
)
    ensures
        m.contains_key(topic) ==> dispatch_spec(m, topic) == Some(m[topic].spec_replies()),
        !m.contains_key(topic) ==> dispatch_spec(m, topic) is None,
{
}

/// The router: an insertion-ordered route table from topic to handler.
pub struct MqttRouter<H> {
    routes: indexmap::IndexMap<String, usize>,
    handlers: Vec<H>,
}

impl<H: MqttHandler> MqttRouter<H> {
    /// The slot each registered topic routes to.
    pub closed spec fn slots(&self) -> Map<Seq<char>, int> {
        map_of(self.routes)
    }

    /// The registered topics in insertion order.
    pub closed spec fn order(&self) -> Seq<Seq<char>> {
        order_of(self.routes)
    }

    /// Every slot points into the handler store, at a handler whose own
    /// topic is the key it is registered under.
    pub closed spec fn wf(&self) -> bool {
        &&& self.slots().dom().finite()
        &&& forall|t: Seq<char>| #[trigger]
            self.slots().contains_key(t) ==> 0 <= self.slots()[t] < self.handlers@.len()
                && self.handlers@[self.slots()[t]].spec_path() == t
    }

    /// The route table as a mapping from topic to registered handler.
    pub closed spec fn route_map(&self) -> Map<Seq<char>, H> {
        Map::new(
            |t: Seq<char>| self.slots().contains_key(t),
            |t: Seq<char>| self.handlers@[self.slots()[t]],
        )
    }

    /// An empty router, made before any handler registers.
    pub fn new() -> (r: Self)
        ensures
            r.wf(),
            r.route_map() == empty_table::<H>(),
            r.order() == Seq::<Seq<char>>::empty(),
    {
        let r = MqttRouter { routes: routes_new(), handlers: Vec::new() };
        proof {
            assert(r.route_map() =~= empty_table::<H>());
        }
        r
    }

    /// Register `handler` under its own topic, replacing any handler already
    /// registered there, and return the subscription request to perform for
    /// it on the broker. A fresh topic goes last in the table's order; a
    /// replaced one keeps its place.
    pub fn add_route(&mut self, handler: H) -> (r: SubscribeRequest)
        requires
            old(self).wf(),
        ensures
            final(self).wf(),
            final(self).route_map() == old(self).route_map().insert(
                handler.spec_path(),
                handler,
            ),
            old(self).route_map().contains_key(handler.spec_path()) ==> final(self).order()
                == old(self).order(),
            !old(self).route_map().contains_key(handler.spec_path()) ==> final(self).order()
                == old(self).order().push(handler.spec_path()),
            r@.topic == handler.spec_path(),
            r@.qos == handler.spec_qos(),
    {
        let req = handler.subscribe();
        let path = handler.path();
        let slot = self.handlers.len();
        self.handlers.push(handler);
        routes_insert(&mut self.routes, path, slot);
        proof {
            assert(self.route_map() =~= old(self).route_map().insert(
                handler.spec_path(),
                handler,
            ));
        }
        req
    }

    /// Look `path` up and produce the registered handler's replies; an
    /// unregistered topic comes back as `NoRoute`, never a failure. Borrows
    /// the router immutably: concurrent dispatch units may share it.
    pub fn handle_request(&self, path: String) -> (r: DispatchOutcome)
        requires
            self.wf(),
        ensures
            match dispatch_spec(self.route_map(), path@) {
                Some(replies) => (r matches DispatchOutcome::Handled { replies: v }
                    && v.deep_view() == replies),
                None => r is NoRoute,
            },
    {
        match routes_get(&self.routes, &path) {
            Some(slot) => {
                let handler = &self.handlers[slot];
                DispatchOutcome::Handled { replies: handler.call_async() }
            },
            None => DispatchOutcome::NoRoute,
        }
    }

    /// The registered topics, oldest registration first.
    pub fn topics(&self) -> (r: Vec<String>)
        ensures
            r@.len() == self.order().len(),
            forall|i: int| 0 <= i < r@.len() ==> r@[i]@ == self.order()[i],
    {
        routes_keys(&self.routes)
    }
}

} // verus!
