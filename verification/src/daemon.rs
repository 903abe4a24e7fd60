//! The daemon core: one store, one hub, and the dispatch that feeds every
//! accepted entity from the upstream client into both. The transport layer
//! hands each inbound text frame to `handle_registry_message` and performs
//! whatever the returned action asks.

use vstd::prelude::*;

use crate::client::{ConnState, UpstreamClient};
use crate::component::Component;
use crate::hub::{push_lossy, Hub};
use crate::message::{
    classify_message, data_entity_doc_of, entity_fields_of, envelope_type_of,
    frame_carries_entity, InboundMessage,
};
use crate::store::{distinct_ids, latest_of, Store};

verus! {

/// The per-subscriber delivery buffer bound.
pub const HUB_CAPACITY: usize = 100;

/// What the dispatcher asks the transport to do after one inbound frame.
pub enum Action {
    /// Send this text out on the socket.
    Reply(String),
    /// Nothing to send.
    Ignore,
}

/// One accepted entity write, as both the store and every attached
/// subscriber's buffer see it.
pub open spec fn accepted_write(
    pre: ComponentDaemon,
    post: ComponentDaemon,
    c: Component,
) -> bool {
    &&& post.history() == pre.history().push(c)
    &&& forall|h: u64|
        pre.attached(h) ==> post.buffer_of(h) == push_lossy(pre.buffer_of(h), c, pre.capacity())
}

/// The process-wide singleton pair of entity store and broadcast hub.
pub struct ComponentDaemon {
    store: Store,
    hub: Hub,
}

impl ComponentDaemon {
    pub closed spec fn wf(self) -> bool {
        self.store.wf() && self.hub.wf()
    }

    /// Every entity ever accepted from upstream, in acceptance order.
    pub closed spec fn history(self) -> Seq<Component> {
        self.store.history()
    }

    pub closed spec fn attached(self, h: u64) -> bool {
        self.hub.attached(h)
    }

    pub closed spec fn buffer_of(self, h: u64) -> Seq<Component> {
        self.hub.buffer_of(h)
    }

    pub closed spec fn capacity(self) -> nat {
        self.hub.capacity()
    }

    pub closed spec fn can_attach(self) -> bool {
        self.hub.can_attach()
    }

    /// Both structures start empty at daemon start and live for the process
    /// lifetime.
    pub fn new() -> (r: ComponentDaemon)
        ensures
            r.wf(),
            r.history() == Seq::<Component>::empty(),
            r.capacity() == HUB_CAPACITY,
            r.can_attach(),
            forall|h: u64| !r.attached(h),
    {
        ComponentDaemon { store: Store::new(), hub: Hub::new(HUB_CAPACITY) }
    }

    /// One accepted entity from upstream: written to the store (latest map
    /// and history log) and published to every attached subscriber.
    pub fn handle_component_from_registry(&mut self, c: Component)
        requires
            old(self).wf(),
        ensures
            final(self).wf(),
            final(self).capacity() == old(self).capacity(),
            final(self).can_attach() == old(self).can_attach(),
            forall|h: u64| final(self).attached(h) == old(self).attached(h),
            accepted_write(*old(self), *final(self), c),
    {
        self.store.upsert(c.clone());
        self.hub.publish(&c);
    }

    /// The current latest-map values, as an independent copy: exactly one
    /// entry per distinct id ever accepted, holding its last-written value.
    pub fn get_components(&self) -> (r: Vec<Component>)
        requires
            self.wf(),
        ensures
            distinct_ids(r@),
            latest_of(r@) == latest_of(self.history()),
    {
        self.store.snapshot()
    }

    /// The history log's length: how many entities were accepted in all,
    /// duplicate ids included.
    pub fn get_all_components_count(&self) -> (r: usize)
        ensures
            r == self.history().len(),
    {
        self.store.history_count()
    }

    /// Whether another local subscriber can still be registered.
    pub fn can_accept_subscriber(&self) -> (r: bool)
        ensures
            r == self.can_attach(),
    {
        self.hub.has_free_handle()
    }

    /// Attaches a new local subscriber and hands back its handle. It starts
    /// with no backlog: only entities published after attachment reach it.
    pub fn subscribe_to_updates(&mut self) -> (h: u64)
        requires
            old(self).wf(),
            old(self).can_attach(),
        ensures
            final(self).wf(),
            final(self).history() == old(self).history(),
            final(self).capacity() == old(self).capacity(),
            !old(self).attached(h),
            final(self).attached(h),
            final(self).buffer_of(h) == Seq::<Component>::empty(),
            forall|h2: u64| h2 != h ==> final(self).attached(h2) == old(self).attached(h2),
            forall|h2: u64| h2 != h ==> final(self).buffer_of(h2) == old(self).buffer_of(h2),
    {
        self.hub.attach()
    }

    /// Releases one subscriber; idempotent, and it never touches the store
    /// or any other subscriber.
    pub fn unsubscribe(&mut self, h: u64)
        requires
            old(self).wf(),
        ensures
            final(self).wf(),
            final(self).history() == old(self).history(),
            final(self).capacity() == old(self).capacity(),
            final(self).can_attach() == old(self).can_attach(),
            !final(self).attached(h),
            forall|h2: u64| h2 != h ==> final(self).attached(h2) == old(self).attached(h2),
            forall|h2: u64| h2 != h ==> final(self).buffer_of(h2) == old(self).buffer_of(h2),
    {
        self.hub.detach(h)
    }

    /// The oldest pending delivery for this subscriber, if any: each
    /// subscriber sees entities in the order they were accepted upstream.
    pub fn try_next_update(&mut self, h: u64) -> (r: Option<Component>)
        requires
            old(self).wf(),
        ensures
            final(self).wf(),
            final(self).history() == old(self).history(),
            final(self).capacity() == old(self).capacity(),
            final(self).can_attach() == old(self).can_attach(),
            forall|h2: u64| final(self).attached(h2) == old(self).attached(h2),
            forall|h2: u64| h2 != h ==> final(self).buffer_of(h2) == old(self).buffer_of(h2),
            old(self).attached(h) && old(self).buffer_of(h).len() > 0 ==> r == Some(
                old(self).buffer_of(h).first(),
            ) && final(self).buffer_of(h) == old(self).buffer_of(h).drop_first(),
            !(old(self).attached(h) && old(self).buffer_of(h).len() > 0) ==> r is None
                && final(self).buffer_of(h) == old(self).buffer_of(h),
    {
        self.hub.try_next(h)
    }

    /// Acts on one classified inbound frame. An acknowledgment in
    /// `AwaitingAck` subscribes and replies with the subscribe request; an
    /// entity update in `Subscribed` feeds the store and the hub; every
    /// other frame — upstream errors, keep-alives, completions, malformed
    /// or unknown payloads — changes nothing at all.
    pub fn dispatch_message(&mut self, client: &mut UpstreamClient, msg: InboundMessage) -> (a:
        Action)
        requires
            old(self).wf(),
        ensures
            final(self).wf(),
            final(self).capacity() == old(self).capacity(),
            final(self).can_attach() == old(self).can_attach(),
            forall|h: u64| final(self).attached(h) == old(self).attached(h),
            msg is ConnectionAck && old(client).state() == ConnState::AwaitingAck
                ==> final(client).state() == ConnState::Subscribed && *final(self) == *old(self)
                && (a matches
                Action::Reply(s)
                && s@
                == "{\"id\":\"registry-sub\",\"type\":\"start\",\"payload\":{\"query\":\"subscription { componentUpdate { id type data createdAt } }\"}}"@),
            msg matches InboundMessage::EntityUpdate(c) ==> (old(client).state()
                == ConnState::Subscribed ==> final(client).state() == old(client).state()
                && accepted_write(*old(self), *final(self), c) && a is Ignore),
            !(msg is ConnectionAck && old(client).state() == ConnState::AwaitingAck) && !(msg
                is EntityUpdate && old(client).state() == ConnState::Subscribed) ==> *final(self)
                == *old(self) && final(client).state() == old(client).state() && a is Ignore,
    {
        match msg {
            InboundMessage::ConnectionAck => {
                if client.current_state() == ConnState::AwaitingAck {
                    let sub = client.on_ack();
                    Action::Reply(sub)
                } else {
                    Action::Ignore
                }
            },
            InboundMessage::EntityUpdate(c) => {
                if client.current_state() == ConnState::Subscribed {
                    self.handle_component_from_registry(c);
                    Action::Ignore
                } else {
                    Action::Ignore
                }
            },
            _ => Action::Ignore,
        }
    }

    /// One inbound text frame, end to end: classified, then dispatched. No
    /// frame fails this loop: a malformed one is classified and discarded.
    /// An acknowledgment frame in `AwaitingAck` subscribes and replies with
    /// the subscribe request; a `data` frame carrying a decodable entity, in
    /// `Subscribed`, makes exactly one accepted write; every other frame, in
    /// every state, changes nothing at all.
    pub fn handle_registry_message(&mut self, client: &mut UpstreamClient, text: &str) -> (a:
        Action)
        requires
            old(self).wf(),
        ensures
            final(self).wf(),
            final(self).capacity() == old(self).capacity(),
            final(self).can_attach() == old(self).can_attach(),
            forall|h: u64| final(self).attached(h) == old(self).attached(h),
            final(client).state() == old(client).state() || (old(client).state()
                == ConnState::AwaitingAck && final(client).state() == ConnState::Subscribed),
            envelope_type_of(text@) == Some("connection_ack"@) && old(client).state()
                == ConnState::AwaitingAck ==> final(client).state() == ConnState::Subscribed
                && *final(self) == *old(self) && (a matches Action::Reply(s) && s@
                == "{\"id\":\"registry-sub\",\"type\":\"start\",\"payload\":{\"query\":\"subscription { componentUpdate { id type data createdAt } }\"}}"@),
            a is Reply ==> envelope_type_of(text@) == Some("connection_ack"@) && old(
                client,
            ).state() == ConnState::AwaitingAck,
            frame_carries_entity(text@) && old(client).state() == ConnState::Subscribed
                ==> final(client).state() == old(client).state() && a is Ignore && (exists|
                c: Component,
            |
                #[trigger] accepted_write(*old(self), *final(self), c) && entity_fields_of(
                    data_entity_doc_of(text@)->Some_0,
                    c,
                )),
            !(envelope_type_of(text@) == Some("connection_ack"@) && old(client).state()
                == ConnState::AwaitingAck) && !(frame_carries_entity(text@) && old(client).state()
                == ConnState::Subscribed) ==> *final(self) == *old(self) && final(client).state()
                == old(client).state() && a is Ignore,
    {
        let m = classify_message(text);
        let ghost gm = m;
        let ghost pre_self = *self;
        let ghost pre_state = client.state();
        let a = self.dispatch_message(client, m);
        proof {
            match gm {
                InboundMessage::EntityUpdate(c) => {
                    if pre_state == ConnState::Subscribed {
                        assert(accepted_write(pre_self, *self, c));
                        assert(entity_fields_of(data_entity_doc_of(text@)->Some_0, c));
                    }
                },
                _ => {},
            }
        }
        a
    }
}

} // verus!
