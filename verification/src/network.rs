use vstd::prelude::*;

verus! {

/// Identity of a remote participant, as handed out by the transport layer.
/// The service never looks inside it; it only stores and compares it.
#[derive(Clone, Copy, Debug, PartialEq, Eq, Hash, Structural)]
pub struct PeerId(pub u64);

/// A transport-level address of a peer, opaque to the service: addresses are
/// received in commands and handed back to the transport unchanged.
#[derive(Clone, Debug, PartialEq, Eq, Hash)]
pub struct Address(pub Vec<u8>);

/// Identifier of one outbound per-peer channel. The service allocates a fresh
/// one for every stream it opens, and the surrounding runtime keeps the actual
/// queue under this key.
pub type ChannelId = u64;

/// The two sub-protocols the service multiplexes: `Generic` carries gossip
/// broadcast to all connected peers, `Validator` carries point-to-point
/// consensus traffic.
#[derive(Clone, Copy, Debug, PartialEq, Eq, Hash, Structural)]
pub enum Protocol {
    Generic,
    Validator,
}

/// Wire-level name of the generic sub-protocol, as a sequence of characters.
pub open spec fn spec_generic_protocol_name() -> Seq<char> {
    "/cardinals/aleph/1"@
}

/// Wire-level name of the validator sub-protocol, as a sequence of characters.
pub open spec fn spec_validator_protocol_name() -> Seq<char> {
    "/cardinals/aleph_validator/1"@
}

pub open spec fn spec_protocol_name(protocol: Protocol) -> Seq<char> {
    match protocol {
        Protocol::Generic => spec_generic_protocol_name(),
        Protocol::Validator => spec_validator_protocol_name(),
    }
}

/// Which sub-protocol a wire-level name denotes, if any.
pub open spec fn spec_protocol_of_name(name: Seq<char>) -> Option<Protocol> {
    if name == spec_generic_protocol_name() {
        Some(Protocol::Generic)
    } else if name == spec_validator_protocol_name() {
        Some(Protocol::Validator)
    } else {
        None
    }
}

impl Protocol {
    /// The stable wire-level name under which this protocol's notifications
    /// travel.
    pub fn name(&self) -> (r: String)
        ensures
            r@ == spec_protocol_name(*self),
    {
        match self {
            Protocol::Generic => "/cardinals/aleph/1".to_owned(),
            Protocol::Validator => "/cardinals/aleph_validator/1".to_owned(),
        }
    }
}

/// Recognizes a wire-level protocol name; any other name is not this
/// service's concern.
pub fn protocol_of_name(name: &String) -> (r: Option<Protocol>)
    ensures
        r == spec_protocol_of_name(name@),
{
    if *name == Protocol::Generic.name() {
        Some(Protocol::Generic)
    } else if *name == Protocol::Validator.name() {
        Some(Protocol::Validator)
    } else {
        None
    }
}

/// Commands from the connection manager: adjust the validator protocol's
/// reserved-peer set.
#[derive(Clone, Debug, PartialEq, Eq)]
pub enum ConnectionCommand {
    AddReserved(Vec<Address>),
    DelReserved(Vec<PeerId>),
}

/// What a user asks the service to do with one outbound payload: gossip it to
/// every generic-connected peer, or send it to one peer over one protocol.
#[derive(Clone, Debug, PartialEq, Eq)]
pub enum DataCommand {
    Broadcast,
    SendTo(PeerId, Protocol),
}

/// An event reported by the transport layer.
#[derive(Clone, Debug, PartialEq, Eq)]
pub enum Event {
    /// A low-level connection to the peer was established.
    SyncConnected { remote: PeerId },
    /// The low-level connection to the peer went away.
    SyncDisconnected { remote: PeerId },
    /// A notification stream for the named protocol was opened with the peer.
    NotificationStreamOpened { remote: PeerId, protocol: String },
    /// The notification stream for the named protocol was closed.
    NotificationStreamClosed { remote: PeerId, protocol: String },
    /// Inbound notifications, each tagged with the wire-level protocol name
    /// it arrived on.
    NotificationsReceived { messages: Vec<(String, Vec<u8>)> },
    /// Distributed-hash-table chatter; irrelevant to this service.
    Dht,
}

/// An effect the service asks the surrounding runtime to perform. The service
/// itself only decides; all transport calls, channel plumbing and task
/// spawning happen outside.
#[derive(Clone, Debug, PartialEq, Eq)]
pub enum Action {
    /// Put the peer's address on the transport's reserved list for the protocol.
    AddReservedPeer { peer: PeerId, protocol: Protocol },
    /// Put the given addresses on the transport's reserved list for the protocol.
    AddReservedAddresses { addresses: Vec<Address>, protocol: Protocol },
    /// Drop the peers from the transport's reserved list for the protocol.
    RemoveReserved { peers: Vec<PeerId>, protocol: Protocol },
    /// Start a delivery task for the peer and protocol, reading from the
    /// freshly allocated channel.
    SpawnPeerSender { peer: PeerId, protocol: Protocol, channel: ChannelId },
    /// Hand the payload to the delivery task that owns the channel.
    Enqueue { peer: PeerId, protocol: Protocol, channel: ChannelId, data: Vec<u8> },
    /// Deliver a successfully decoded inbound payload to the consumer.
    ForwardToUser { data: Vec<u8> },
}

/// Why handing a payload to a peer's delivery channel failed.
#[derive(Clone, Copy, Debug, PartialEq, Eq)]
pub enum SendError {
    /// The peer has no open channel for that protocol.
    MissingSender,
    /// The channel exists but could not accept the payload.
    SendingFailed,
}

} // verus!
