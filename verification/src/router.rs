use vstd::prelude::*;

use crate::network::{PeerId, Protocol};
use crate::scale::{scale_encode, scale_encoded};

verus! {

/// The decision state of one per-(peer, protocol) delivery task. The task
/// reads payloads off its dedicated channel one at a time, lazily obtains a
/// transport-level sender, and pushes the encoded payload through it; all the
/// waiting and the actual transport calls happen in the surrounding runtime,
/// which reports each outcome back here.
///
/// The rules it enforces: a payload whose sender cannot be created is dropped
/// and the task carries on; a failed send evicts the cached sender so that the
/// next payload recreates it; only closure of the inbound channel ends the
/// task.
pub struct ProtocolRouter {
    peer: PeerId,
    protocol: Protocol,
    has_sender: bool,
}

impl ProtocolRouter {
    pub closed spec fn spec_peer(&self) -> PeerId {
        self.peer
    }

    pub closed spec fn spec_protocol(&self) -> Protocol {
        self.protocol
    }

    /// Whether a transport-level sender is currently cached.
    pub closed spec fn spec_has_sender(&self) -> bool {
        self.has_sender
    }

    pub fn new(peer: PeerId, protocol: Protocol) -> (r: ProtocolRouter)
        ensures
            r.spec_peer() == peer,
            r.spec_protocol() == protocol,
            !r.spec_has_sender(),
    {
        ProtocolRouter { peer, protocol, has_sender: false }
    }

    pub fn has_sender(&self) -> (r: bool)
        ensures
            r == self.spec_has_sender(),
    {
        self.has_sender
    }

    /// The bytes to push through the transport for one payload. The wire
    /// format's length prefix is 32-bit, which bounds the payload.
    pub fn encode_payload(&self, data: &Vec<u8>) -> (r: Vec<u8>)
        requires
            data@.len() <= u32::MAX,
        ensures
            r@ == scale_encoded(data@),
    {
        scale_encode(data)
    }

    /// Records whether the runtime managed to create a transport-level sender.
    /// On failure the current payload is dropped by the caller and the task
    /// carries on without a sender.
    pub fn on_sender_created(&mut self, ok: bool)
        requires
            !old(self).spec_has_sender(),
        ensures
            final(self).spec_peer() == old(self).spec_peer(),
            final(self).spec_protocol() == old(self).spec_protocol(),
            final(self).spec_has_sender() == ok,
    {
        self.has_sender = ok;
    }

    /// Records the outcome of one send: a failure evicts the cached sender,
    /// forcing recreation for the next payload, and never ends the task.
    pub fn on_send_result(&mut self, ok: bool)
        requires
            old(self).spec_has_sender(),
        ensures
            final(self).spec_peer() == old(self).spec_peer(),
            final(self).spec_protocol() == old(self).spec_protocol(),
            final(self).spec_has_sender() == ok,
    {
        self.has_sender = ok;
    }
}

/// A transient send failure does not wedge delivery: after the failed send
/// evicted the cached sender, the very next payload asks for a new sender, and
/// once one is created the task is in the same state as one that never failed,
/// so the following send proceeds.
pub proof fn lemma_send_retry_after_failure(
    before: ProtocolRouter,
    after_failure: ProtocolRouter,
    after_recreate: ProtocolRouter,
)
    requires
        before.spec_has_sender(),
        // what `on_send_result(false)` leaves behind
        after_failure.spec_peer() == before.spec_peer(),
        after_failure.spec_protocol() == before.spec_protocol(),
        !after_failure.spec_has_sender(),
        // what `on_sender_created(true)` then establishes
        after_recreate.spec_peer() == after_failure.spec_peer(),
        after_recreate.spec_protocol() == after_failure.spec_protocol(),
        after_recreate.spec_has_sender(),
    ensures
        after_recreate.spec_peer() == before.spec_peer(),
        after_recreate.spec_protocol() == before.spec_protocol(),
        after_recreate.spec_has_sender() == before.spec_has_sender(),
{
}

} // verus!
