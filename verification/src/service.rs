use vstd::prelude::*;

use crate::network::{
    Action, ChannelId, ConnectionCommand, DataCommand, Event, PeerId, Protocol, SendError,
    spec_protocol_of_name, protocol_of_name,
};
use crate::peers::PeerChannels;
use crate::scale::{scale_decode, scale_decoded};

verus! {

/// The network service's decision state: which peers have an open stream per
/// protocol and which channel each one's delivery task reads from, plus the
/// id the next channel will get. The service consumes transport events,
/// manager commands and user commands, updates this state and answers with
/// the `Action`s the surrounding runtime must perform; it never blocks and
/// never performs transport work itself.
pub struct Service {
    generic: PeerChannels,
    validator: PeerChannels,
    next_channel_id: ChannelId,
}

/// The channel id allocated after `c`: ids simply count up, wrapping at the
/// top of the 64-bit range.
pub open spec fn next_channel_after(c: u64) -> u64 {
    if c == 0xffff_ffff_ffff_ffffu64 {
        0u64
    } else {
        (c + 1) as u64
    }
}

/// The protocol that is not `p`.
pub open spec fn other_protocol(p: Protocol) -> Protocol {
    match p {
        Protocol::Generic => Protocol::Validator,
        Protocol::Validator => Protocol::Generic,
    }
}

impl Service {
    /// Peers connected for the generic protocol, in stream-opening order.
    pub closed spec fn generic_peers(&self) -> Seq<PeerId> {
        self.generic.spec_peers()
    }

    /// Peers connected for the validator protocol, in stream-opening order.
    pub closed spec fn validator_peers(&self) -> Seq<PeerId> {
        self.validator.spec_peers()
    }

    pub closed spec fn generic_channel_of(&self, peer: PeerId) -> Option<ChannelId> {
        self.generic.spec_channel_of(peer)
    }

    pub closed spec fn validator_channel_of(&self, peer: PeerId) -> Option<ChannelId> {
        self.validator.spec_channel_of(peer)
    }

    pub closed spec fn spec_next_channel(&self) -> ChannelId {
        self.next_channel_id
    }

    pub open spec fn spec_peers_of(&self, protocol: Protocol) -> Seq<PeerId> {
        match protocol {
            Protocol::Generic => self.generic_peers(),
            Protocol::Validator => self.validator_peers(),
        }
    }

    pub open spec fn spec_channel_of(&self, protocol: Protocol, peer: PeerId) -> Option<
        ChannelId,
    > {
        match protocol {
            Protocol::Generic => self.generic_channel_of(peer),
            Protocol::Validator => self.validator_channel_of(peer),
        }
    }

    pub closed spec fn well_formed(&self) -> bool {
        &&& self.generic.well_formed()
        &&& self.validator.well_formed()
    }

    /// A peer is connected for a protocol exactly when a channel is recorded
    /// for it: the membership view and the sender view never drift apart.
    pub proof fn lemma_member_iff_channel(&self, protocol: Protocol, peer: PeerId)
        ensures
            self.spec_peers_of(protocol).contains(peer) <==> self.spec_channel_of(
                protocol,
                peer,
            ) is Some,
    {
        self.generic.lemma_member_iff_channel(peer);
        self.validator.lemma_member_iff_channel(peer);
    }

    /// Connected peers are pairwise distinct for each protocol.
    pub proof fn lemma_peers_distinct(&self, protocol: Protocol)
        requires
            self.well_formed(),
        ensures
            forall|i: int, j: int|
                0 <= i < j < self.spec_peers_of(protocol).len() ==> self.spec_peers_of(protocol)[i]
                    != self.spec_peers_of(protocol)[j],
    {
        self.generic.lemma_peers_distinct();
        self.validator.lemma_peers_distinct();
    }

    pub fn new() -> (r: Service)
        ensures
            r.well_formed(),
            r.generic_peers() == Seq::<PeerId>::empty(),
            r.validator_peers() == Seq::<PeerId>::empty(),
            forall|q: PeerId| r.generic_channel_of(q) is None,
            forall|q: PeerId| r.validator_channel_of(q) is None,
            r.spec_next_channel() == 0,
    {
        Service { generic: PeerChannels::new(), validator: PeerChannels::new(), next_channel_id: 0 }
    }

    fn get_sender(&self, peer: PeerId, protocol: Protocol) -> (r: Option<ChannelId>)
        requires
            self.well_formed(),
        ensures
            r == self.spec_channel_of(protocol, peer),
    {
        match protocol {
            Protocol::Generic => self.generic.channel_of(peer),
            Protocol::Validator => self.validator.channel_of(peer),
        }
    }

    /// Routes one payload to one peer over one protocol: the handed-back
    /// action tells the runtime which channel to feed. Fails exactly when the
    /// peer has no channel for the protocol; the failure is the routing
    /// layer's own and is never surfaced to the command issuer.
    pub fn send_to_peer(&self, data: Vec<u8>, peer: PeerId, protocol: Protocol) -> (r: Result<
        Action,
        SendError,
    >)
        requires
            self.well_formed(),
        ensures
            send_to_peer_post(*self, data, peer, protocol, r),
    {
        match self.get_sender(peer, protocol) {
            Some(channel) => Ok(Action::Enqueue { peer, protocol, channel, data }),
            None => Err(SendError::MissingSender),
        }
    }

    /// Hands the payload to every peer currently connected for the generic
    /// protocol, one enqueue per peer, all carrying the same bytes. The
    /// recipient list is the membership snapshot at the moment of the call.
    #[verifier::loop_isolation(false)]
    pub fn broadcast(&self, data: Vec<u8>) -> (r: Vec<Action>)
        requires
            self.well_formed(),
        ensures
            broadcast_post(*self, data@, r@),
    {
        proof {
            self.lemma_peers_distinct(Protocol::Generic);
            assert forall|i: int, j: int|
                0 <= i < j < self.generic_peers().len() implies self.generic_peers()[i]
                != self.generic_peers()[j] by {
                assert(self.spec_peers_of(Protocol::Generic)[i] != self.spec_peers_of(
                    Protocol::Generic,
                )[j]);
            }
        }
        let mut actions: Vec<Action> = Vec::new();
        let n = self.generic.len();
        let mut i: usize = 0;
        while i < n
            invariant
                i <= n,
                actions@.len() == i,
                forall|j: int|
                    0 <= j < i ==> broadcast_action_ok(*self, data@, j, actions@[j]),
            decreases n - i,
        {
            let (peer, channel) = self.generic.entry_at(i);
            let payload = data.clone();
            assert(payload@ =~= data@);
            actions.push(
                Action::Enqueue { peer, protocol: Protocol::Generic, channel, data: payload },
            );
            i += 1;
        }
        actions
    }

    /// Applies one transport event: tracks the reserved set for low-level
    /// connections, opens and closes per-peer delivery channels as streams
    /// come and go, and forwards every decodable inbound payload that arrived
    /// under a recognized protocol name. Malformed payloads are dropped,
    /// unknown protocol names ignored.
    #[verifier::loop_isolation(false)]
    pub fn handle_network_event(&mut self, event: Event) -> (r: Vec<Action>)
        requires
            old(self).well_formed(),
        ensures
            final(self).well_formed(),
            handle_event_post(*old(self), *final(self), event, r@),
    {
        let mut actions: Vec<Action> = Vec::new();
        match event {
            Event::SyncConnected { remote } => {
                actions.push(
                    Action::AddReservedPeer { peer: remote, protocol: Protocol::Generic },
                );
                proof {
                    assert(actions@ =~= seq![
                        Action::AddReservedPeer { peer: remote, protocol: Protocol::Generic },
                    ]);
                }
            },
            Event::SyncDisconnected { remote } => {
                let mut peers: Vec<PeerId> = Vec::new();
                peers.push(remote);
                assert(peers@ =~= seq![remote]);
                actions.push(Action::RemoveReserved { peers, protocol: Protocol::Generic });
            },
            Event::NotificationStreamOpened { remote, protocol } => {
                match protocol_of_name(&protocol) {
                    Some(p) => {
                        let fresh = self.next_channel_id;
                        self.next_channel_id = if self.next_channel_id == 0xffff_ffff_ffff_ffffu64 {
                            0
                        } else {
                            self.next_channel_id + 1
                        };
                        match p {
                            Protocol::Generic => self.generic.insert(remote, fresh),
                            Protocol::Validator => self.validator.insert(remote, fresh),
                        }
                        actions.push(
                            Action::SpawnPeerSender { peer: remote, protocol: p, channel: fresh },
                        );
                        proof {
                            assert(actions@ =~= seq![
                                Action::SpawnPeerSender { peer: remote, protocol: p, channel: fresh },
                            ]);
                        }
                    },
                    None => {
                        // Other protocols are irrelevant to this service.
                    },
                }
            },
            Event::NotificationStreamClosed { remote, protocol } => {
                match protocol_of_name(&protocol) {
                    Some(p) => {
                        match p {
                            Protocol::Generic => self.generic.remove(remote),
                            Protocol::Validator => self.validator.remove(remote),
                        }
                    },
                    None => {
                        // Other protocols are irrelevant to this service.
                    },
                }
            },
            Event::NotificationsReceived { messages } => {
                let mut i: usize = 0;
                while i < messages.len()
                    invariant
                        i <= messages@.len(),
                        forward_actions_ok(actions@, forwarded_views(messages@.take(i as int))),
                    decreases messages@.len() - i,
                {
                    match protocol_of_name(&messages[i].0) {
                        Some(_) => {
                            match scale_decode(&messages[i].1) {
                                Some(decoded) => {
                                    actions.push(Action::ForwardToUser { data: decoded });
                                },
                                None => {
                                    // Undecodable payloads are dropped; non-fatal.
                                },
                            }
                        },
                        None => {
                            // Unrecognized protocol name: not our message.
                        },
                    }
                    proof {
                        assert(messages@.take(i as int + 1).drop_last() =~= messages@.take(
                            i as int,
                        ));
                        assert(messages@.take(i as int + 1).last() == messages@[i as int]);
                    }
                    i += 1;
                }
                proof {
                    assert(messages@.take(messages@.len() as int) =~= messages@);
                }
            },
            Event::Dht => {
                // Irrelevant for this service; ignore.
            },
        }
        actions
    }

    /// Translates one connection-manager command into the matching
    /// reserved-set adjustment on the validator protocol.
    pub fn on_manager_command(&self, command: ConnectionCommand) -> (r: Action)
        ensures
            manager_command_action(command, r),
    {
        match command {
            ConnectionCommand::AddReserved(addresses) => Action::AddReservedAddresses {
                addresses,
                protocol: Protocol::Validator,
            },
            ConnectionCommand::DelReserved(peers) => Action::RemoveReserved {
                peers,
                protocol: Protocol::Validator,
            },
        }
    }

    /// Dispatches one user command: broadcast over the generic protocol, or a
    /// single point-to-point send whose routing failure is swallowed (only
    /// logged in the surrounding runtime), reflecting best-effort delivery.
    pub fn on_user_command(&self, data: Vec<u8>, command: DataCommand) -> (r: Vec<Action>)
        requires
            self.well_formed(),
        ensures
            on_user_command_post(*self, data, command, r@),
    {
        match command {
            DataCommand::Broadcast => self.broadcast(data),
            DataCommand::SendTo(peer, protocol) => {
                match self.send_to_peer(data, peer, protocol) {
                    Ok(action) => {
                        let mut actions: Vec<Action> = Vec::new();
                        actions.push(action);
                        actions
                    },
                    Err(_) => Vec::new(),
                }
            },
        }
    }
}

/// What `send_to_peer` promises: acceptance exactly when the peer has a
/// channel for the protocol, and the action feeds that channel with exactly
/// the given payload.
pub open spec fn send_to_peer_post(
    s: Service,
    data: Vec<u8>,
    peer: PeerId,
    protocol: Protocol,
    r: Result<Action, SendError>,
) -> bool {
    &&& r is Ok <==> s.spec_channel_of(protocol, peer) is Some
    &&& r matches Ok(a) ==> (s.spec_channel_of(protocol, peer) matches Some(c) && a == (
    Action::Enqueue { peer, protocol, channel: c, data }))
    &&& r matches Err(e) ==> e == SendError::MissingSender
}

/// The shape of the `i`-th broadcast action: an enqueue of the payload to the
/// `i`-th generic-connected peer's channel.
pub open spec fn broadcast_action_ok(s: Service, data: Seq<u8>, i: int, a: Action) -> bool {
    a matches Action::Enqueue { peer, protocol, channel, data: d } && peer == s.generic_peers()[i]
        && protocol == Protocol::Generic && s.generic_channel_of(s.generic_peers()[i]) == Some(
        channel,
    ) && d@ == data
}

/// What `broadcast` promises: exactly one delivery attempt per connected
/// generic peer, in membership order, each carrying the identical payload
/// bytes — and those peers are pairwise distinct.
pub open spec fn broadcast_post(s: Service, data: Seq<u8>, actions: Seq<Action>) -> bool {
    &&& actions.len() == s.generic_peers().len()
    &&& forall|i: int| 0 <= i < actions.len() ==> broadcast_action_ok(s, data, i, actions[i])
    &&& forall|i: int, j: int|
        0 <= i < j < s.generic_peers().len() ==> s.generic_peers()[i] != s.generic_peers()[j]
}

/// What `on_user_command` promises, by command.
pub open spec fn on_user_command_post(
    s: Service,
    data: Vec<u8>,
    command: DataCommand,
    actions: Seq<Action>,
) -> bool {
    match command {
        DataCommand::Broadcast => broadcast_post(s, data@, actions),
        DataCommand::SendTo(peer, protocol) => {
            &&& s.spec_channel_of(protocol, peer) matches Some(c) ==> actions == seq![
                (Action::Enqueue { peer, protocol, channel: c, data }),
            ]
            &&& s.spec_channel_of(protocol, peer) is None ==> actions == Seq::<Action>::empty()
        },
    }
}

/// What `on_manager_command` promises: a one-to-one translation onto the
/// validator protocol's reserved set.
pub open spec fn manager_command_action(command: ConnectionCommand, r: Action) -> bool {
    match command {
        ConnectionCommand::AddReserved(addresses) => r == (Action::AddReservedAddresses {
            addresses,
            protocol: Protocol::Validator,
        }),
        ConnectionCommand::DelReserved(peers) => r == (Action::RemoveReserved {
            peers,
            protocol: Protocol::Validator,
        }),
    }
}

/// Nothing about the service's state changed.
pub open spec fn unchanged_state(s0: Service, s1: Service) -> bool {
    &&& s1.generic_peers() == s0.generic_peers()
    &&& s1.validator_peers() == s0.validator_peers()
    &&& forall|q: PeerId| s1.generic_channel_of(q) == s0.generic_channel_of(q)
    &&& forall|q: PeerId| s1.validator_channel_of(q) == s0.validator_channel_of(q)
    &&& s1.spec_next_channel() == s0.spec_next_channel()
}

/// State change and actions for a recognized stream-opened event: the peer
/// joins the protocol's membership (keeping its place if already present),
/// gets the freshly allocated channel, and one delivery task is spawned on
/// it; the other protocol's records are untouched.
pub open spec fn stream_opened_post(
    s0: Service,
    s1: Service,
    remote: PeerId,
    p: Protocol,
    actions: Seq<Action>,
) -> bool {
    let fresh = s0.spec_next_channel();
    &&& actions == seq![(Action::SpawnPeerSender { peer: remote, protocol: p, channel: fresh })]
    &&& s1.spec_next_channel() == next_channel_after(s0.spec_next_channel())
    &&& s0.spec_peers_of(p).contains(remote) ==> s1.spec_peers_of(p) == s0.spec_peers_of(p)
    &&& !s0.spec_peers_of(p).contains(remote) ==> s1.spec_peers_of(p) == s0.spec_peers_of(
        p,
    ).push(remote)
    &&& s1.spec_channel_of(p, remote) == Some(fresh)
    &&& forall|q: PeerId|
        q != remote ==> s1.spec_channel_of(p, q) == s0.spec_channel_of(p, q)
    &&& s1.spec_peers_of(other_protocol(p)) == s0.spec_peers_of(other_protocol(p))
    &&& forall|q: PeerId|
        s1.spec_channel_of(other_protocol(p), q) == s0.spec_channel_of(other_protocol(p), q)
}

/// State change for a recognized stream-closed event: the peer leaves the
/// protocol's membership and loses its channel, everyone else keeps place and
/// channel, and no action is needed — the delivery task exits on its own when
/// its channel is dropped.
pub open spec fn stream_closed_post(
    s0: Service,
    s1: Service,
    remote: PeerId,
    p: Protocol,
    actions: Seq<Action>,
) -> bool {
    &&& actions == Seq::<Action>::empty()
    &&& s1.spec_next_channel() == s0.spec_next_channel()
    &&& !s1.spec_peers_of(p).contains(remote)
    &&& s1.spec_channel_of(p, remote) is None
    &&& forall|q: PeerId|
        q != remote ==> (s1.spec_peers_of(p).contains(q) <==> s0.spec_peers_of(p).contains(q))
    &&& forall|q: PeerId|
        q != remote ==> s1.spec_channel_of(p, q) == s0.spec_channel_of(p, q)
    &&& s0.spec_peers_of(p).contains(remote) ==> exists|k: int|
        0 <= k < s0.spec_peers_of(p).len() && s0.spec_peers_of(p)[k] == remote && s1.spec_peers_of(
            p,
        ) == s0.spec_peers_of(p).remove(k)
    &&& !s0.spec_peers_of(p).contains(remote) ==> s1.spec_peers_of(p) == s0.spec_peers_of(p)
    &&& s1.spec_peers_of(other_protocol(p)) == s0.spec_peers_of(other_protocol(p))
    &&& forall|q: PeerId|
        s1.spec_channel_of(other_protocol(p), q) == s0.spec_channel_of(other_protocol(p), q)
}

/// The payloads that a batch of inbound notifications forwards to the
/// consumer, in arrival order: those tagged with a recognized protocol name
/// whose bytes decode; the rest are dropped.
pub open spec fn forwarded_views(messages: Seq<(String, Vec<u8>)>) -> Seq<Seq<u8>>
    decreases messages.len(),
{
    if messages.len() == 0 {
        Seq::empty()
    } else {
        let rest = forwarded_views(messages.drop_last());
        let m = messages.last();
        if spec_protocol_of_name(m.0@) is Some {
            match scale_decoded(m.1@) {
                Some(v) => rest.push(v),
                None => rest,
            }
        } else {
            rest
        }
    }
}

/// The actions are exactly one `ForwardToUser` per forwarded payload, in
/// order.
pub open spec fn forward_actions_ok(actions: Seq<Action>, views: Seq<Seq<u8>>) -> bool {
    &&& actions.len() == views.len()
    &&& forall|i: int| #![trigger actions[i]]
        0 <= i < actions.len() ==> (actions[i] matches Action::ForwardToUser { data } && data@
            == views[i])
}

/// Everything `handle_network_event` promises, by event: which state changes
/// and which actions each event produces.
pub open spec fn handle_event_post(
    s0: Service,
    s1: Service,
    event: Event,
    actions: Seq<Action>,
) -> bool {
    match event {
        Event::SyncConnected { remote } => unchanged_state(s0, s1) && actions == seq![
            (Action::AddReservedPeer { peer: remote, protocol: Protocol::Generic }),
        ],
        Event::SyncDisconnected { remote } => unchanged_state(s0, s1) && actions.len() == 1 && (
        actions[0] matches Action::RemoveReserved { peers, protocol } && peers@ == seq![remote]
            && protocol == Protocol::Generic),
        Event::NotificationStreamOpened { remote, protocol } => match spec_protocol_of_name(
            protocol@,
        ) {
            Some(p) => stream_opened_post(s0, s1, remote, p, actions),
            None => unchanged_state(s0, s1) && actions == Seq::<Action>::empty(),
        },
        Event::NotificationStreamClosed { remote, protocol } => match spec_protocol_of_name(
            protocol@,
        ) {
            Some(p) => stream_closed_post(s0, s1, remote, p, actions),
            None => unchanged_state(s0, s1) && actions == Seq::<Action>::empty(),
        },
        Event::NotificationsReceived { messages } => unchanged_state(s0, s1) && forward_actions_ok(
            actions,
            forwarded_views(messages@),
        ),
        Event::Dht => unchanged_state(s0, s1) && actions == Seq::<Action>::empty(),
    }
}

/// Closing a peer's generic stream removes exactly that peer from later
/// broadcasts: it is no longer a target, while every other peer's membership
/// and channel survive untouched.
pub proof fn lemma_closed_peer_leaves_broadcasts(
    s0: Service,
    s1: Service,
    remote: PeerId,
    name: String,
    actions: Seq<Action>,
)
    requires
        handle_event_post(
            s0,
            s1,
            Event::NotificationStreamClosed { remote, protocol: name },
            actions,
        ),
        spec_protocol_of_name(name@) == Some(Protocol::Generic),
    ensures
        !s1.generic_peers().contains(remote),
        forall|q: PeerId|
            q != remote ==> (s1.generic_peers().contains(q) <==> s0.generic_peers().contains(q)),
        forall|q: PeerId| q != remote ==> s1.generic_channel_of(q) == s0.generic_channel_of(q),
{
    assert forall|q: PeerId| q != remote implies s1.generic_channel_of(q)
        == s0.generic_channel_of(q) by {
        assert(s1.spec_channel_of(Protocol::Generic, q) == s0.spec_channel_of(
            Protocol::Generic,
            q,
        ));
    }
}

/// Routing does not remember failures: whether a send to a peer is accepted
/// depends only on the service's state, so after a transient hand-off failure
/// a second send to the same peer and protocol is accepted exactly when the
/// first was.
pub proof fn lemma_send_routing_is_stateless(
    s: Service,
    data1: Vec<u8>,
    data2: Vec<u8>,
    peer: PeerId,
    protocol: Protocol,
    r1: Result<Action, SendError>,
    r2: Result<Action, SendError>,
)
    requires
        send_to_peer_post(s, data1, peer, protocol, r1),
        send_to_peer_post(s, data2, peer, protocol, r2),
    ensures
        r1 is Ok <==> r2 is Ok,
{
}

} // verus!
