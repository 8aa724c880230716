use vstd::prelude::*;

use crate::network::{ChannelId, PeerId};

verus! {

/// The per-protocol record of connected peers: one entry for every peer with
/// an open notification stream, carrying the channel its delivery task reads
/// from. A peer is connected for the protocol exactly when it has an entry.
pub struct PeerChannels {
    items: Vec<(PeerId, ChannelId)>,
}

impl PeerChannels {
    /// The connected peers, in the order their streams were opened.
    pub closed spec fn spec_peers(&self) -> Seq<PeerId> {
        self.items@.map_values(|e: (PeerId, ChannelId)| e.0)
    }

    /// The channel of a connected peer, `None` for every other peer.
    pub closed spec fn spec_channel_of(&self, peer: PeerId) -> Option<ChannelId> {
        if exists|i: int| 0 <= i < self.items@.len() && self.items@[i].0 == peer {
            let i = choose|i: int| 0 <= i < self.items@.len() && self.items@[i].0 == peer;
            Some(self.items@[i].1)
        } else {
            None
        }
    }

    /// Each peer occurs at most once.
    pub closed spec fn well_formed(&self) -> bool {
        forall|i: int, j: int|
            0 <= i < j < self.items@.len() ==> self.items@[i].0 != self.items@[j].0
    }

    /// A peer is in the membership view exactly when it has a channel.
    pub proof fn lemma_member_iff_channel(&self, peer: PeerId)
        ensures
            self.spec_peers().contains(peer) <==> self.spec_channel_of(peer) is Some,
    {
        if self.spec_peers().contains(peer) {
            let k = choose|k: int|
                0 <= k < self.spec_peers().len() && self.spec_peers()[k] == peer;
            assert(self.items@[k].0 == peer);
        }
        if self.spec_channel_of(peer) is Some {
            let k = choose|k: int| 0 <= k < self.items@.len() && self.items@[k].0 == peer;
            assert(self.spec_peers()[k] == peer);
        }
    }

    /// Connected peers are pairwise distinct.
    pub proof fn lemma_peers_distinct(&self)
        requires
            self.well_formed(),
        ensures
            forall|i: int, j: int|
                0 <= i < j < self.spec_peers().len() ==> self.spec_peers()[i]
                    != self.spec_peers()[j],
    {
        assert forall|i: int, j: int|
            0 <= i < j < self.spec_peers().len() implies self.spec_peers()[i]
            != self.spec_peers()[j] by {
            assert(self.spec_peers()[i] == self.items@[i].0);
            assert(self.spec_peers()[j] == self.items@[j].0);
        }
    }

    pub fn new() -> (r: PeerChannels)
        ensures
            r.well_formed(),
            r.spec_peers() == Seq::<PeerId>::empty(),
            forall|q: PeerId| r.spec_channel_of(q) is None,
    {
        let r = PeerChannels { items: Vec::new() };
        assert(r.spec_peers() =~= Seq::<PeerId>::empty());
        r
    }

    pub fn len(&self) -> (r: usize)
        ensures
            r == self.spec_peers().len(),
    {
        self.items.len()
    }

    pub fn contains(&self, peer: PeerId) -> (r: bool)
        ensures
            r == self.spec_peers().contains(peer),
    {
        let mut i: usize = 0;
        while i < self.items.len()
            invariant
                i <= self.items@.len(),
                forall|j: int| 0 <= j < i ==> self.items@[j].0 != peer,
            decreases self.items@.len() - i,
        {
            if self.items[i].0 == peer {
                assert(self.spec_peers()[i as int] == peer);
                return true;
            }
            i += 1;
        }
        proof {
            assert forall|k: int|
                0 <= k < self.spec_peers().len() implies self.spec_peers()[k] != peer by {
                assert(self.spec_peers()[k] == self.items@[k].0);
            }
        }
        false
    }

    pub fn channel_of(&self, peer: PeerId) -> (r: Option<ChannelId>)
        requires
            self.well_formed(),
        ensures
            r == self.spec_channel_of(peer),
    {
        let mut i: usize = 0;
        while i < self.items.len()
            invariant
                self.well_formed(),
                i <= self.items@.len(),
                forall|j: int| 0 <= j < i ==> self.items@[j].0 != peer,
            decreases self.items@.len() - i,
        {
            if self.items[i].0 == peer {
                proof {
                    let k = choose|k: int|
                        0 <= k < self.items@.len() && self.items@[k].0 == peer;
                    assert(k == i);
                }
                return Some(self.items[i].1);
            }
            i += 1;
        }
        None
    }

    /// Records that the peer's stream is open and reads from `channel`. A peer
    /// already present keeps its place and only its channel changes, matching
    /// a replaced delivery task.
    #[verifier::loop_isolation(false)]
    pub fn insert(&mut self, peer: PeerId, channel: ChannelId)
        requires
            old(self).well_formed(),
        ensures
            final(self).well_formed(),
            old(self).spec_peers().contains(peer) ==> final(self).spec_peers() == old(self).spec_peers(),
            !old(self).spec_peers().contains(peer) ==> final(self).spec_peers() == old(self).spec_peers().push(peer),
            final(self).spec_channel_of(peer) == Some(channel),
            forall|q: PeerId|
                q != peer ==> final(self).spec_channel_of(q) == old(self).spec_channel_of(q),
    {
        let ghost old_self = *self;
        let mut i: usize = 0;
        while i < self.items.len()
            invariant
                *self == old_self,
                i <= self.items@.len(),
                forall|j: int| 0 <= j < i ==> self.items@[j].0 != peer,
            decreases self.items@.len() - i,
        {
            if self.items[i].0 == peer {
                assert(old_self.spec_peers()[i as int] == peer);
                assert(old_self.spec_peers().contains(peer));
                self.items.set(i, (peer, channel));
                proof {
                    assert(forall|k: int|
                        0 <= k < self.items@.len() ==> self.items@[k].0 == old_self.items@[k].0);
                    assert forall|k: int|
                        0 <= k < self.spec_peers().len() implies self.spec_peers()[k]
                        == old_self.spec_peers()[k] by {
                        assert(self.spec_peers()[k] == self.items@[k].0);
                        assert(old_self.spec_peers()[k] == old_self.items@[k].0);
                    }
                    assert(self.spec_peers() =~= old_self.spec_peers());
                    let k = choose|k: int|
                        0 <= k < self.items@.len() && self.items@[k].0 == peer;
                    assert(k == i);
                    assert(self.spec_channel_of(peer) == Some(channel));
                    assert forall|q: PeerId| q != peer implies self.spec_channel_of(q)
                        == old_self.spec_channel_of(q) by {
                        self.lemma_channel_unchanged_outside(old_self, q, i as int);
                    }
                }
                return;
            }
            i += 1;
        }
        assert forall|k: int|
            0 <= k < old_self.spec_peers().len() implies old_self.spec_peers()[k] != peer by {
            assert(old_self.spec_peers()[k] == old_self.items@[k].0);
        }
        assert(!old_self.spec_peers().contains(peer));
        self.items.push((peer, channel));
        proof {
            let n = old_self.items@.len() as int;
            assert(forall|k: int| 0 <= k < n ==> self.items@[k] == old_self.items@[k]);
            assert(self.items@[n].0 == peer);
            assert forall|a: int, b: int|
                0 <= a < b < self.items@.len() implies self.items@[a].0 != self.items@[b].0 by {
                if b == n {
                    assert(old_self.spec_peers()[a] == old_self.items@[a].0);
                }
            }
            assert forall|k: int|
                0 <= k < self.spec_peers().len() implies self.spec_peers()[k]
                == old_self.spec_peers().push(peer)[k] by {
                assert(self.spec_peers()[k] == self.items@[k].0);
                if k < n {
                    assert(old_self.spec_peers()[k] == old_self.items@[k].0);
                }
            }
            assert(self.spec_peers() =~= old_self.spec_peers().push(peer));
            let k = choose|k: int| 0 <= k < self.items@.len() && self.items@[k].0 == peer;
            assert(k == n) by {
                if k < n {
                    assert(old_self.spec_peers()[k] == peer);
                }
            }
            assert(self.spec_channel_of(peer) == Some(channel));
            assert forall|q: PeerId| q != peer implies self.spec_channel_of(q)
                == old_self.spec_channel_of(q) by {
                self.lemma_channel_unchanged_outside(old_self, q, n);
            }
        }
    }

    /// Channel lookups for `q` agree between two well-formed records that
    /// agree everywhere but at index `at`, whose key on either side is not `q`.
    proof fn lemma_channel_unchanged_outside(&self, prior: PeerChannels, q: PeerId, at: int)
        requires
            self.well_formed(),
            prior.well_formed(),
            prior.items@.len() <= self.items@.len(),
            forall|j: int|
                0 <= j < self.items@.len() && j != at ==> j < prior.items@.len()
                    && self.items@[j] == prior.items@[j],
            0 <= at < self.items@.len(),
            self.items@[at].0 != q,
            at < prior.items@.len() ==> prior.items@[at].0 != q,
        ensures
            self.spec_channel_of(q) == prior.spec_channel_of(q),
    {
        if exists|i: int| 0 <= i < self.items@.len() && self.items@[i].0 == q {
            let i = choose|i: int| 0 <= i < self.items@.len() && self.items@[i].0 == q;
            assert(i != at);
            assert(prior.items@[i].0 == q);
            let j = choose|j: int| 0 <= j < prior.items@.len() && prior.items@[j].0 == q;
            assert(j == i);
        } else if exists|i: int| 0 <= i < prior.items@.len() && prior.items@[i].0 == q {
            let i = choose|i: int| 0 <= i < prior.items@.len() && prior.items@[i].0 == q;
            assert(i != at);
            assert(self.items@[i].0 == q);
        }
    }

    /// Forgets the peer's stream, if one was open. Every other entry keeps its
    /// place and channel.
    #[verifier::loop_isolation(false)]
    pub fn remove(&mut self, peer: PeerId)
        requires
            old(self).well_formed(),
        ensures
            final(self).well_formed(),
            !final(self).spec_peers().contains(peer),
            final(self).spec_channel_of(peer) is None,
            forall|q: PeerId|
                q != peer ==> (final(self).spec_peers().contains(q) <==> old(self).spec_peers().contains(q)),
            forall|q: PeerId|
                q != peer ==> final(self).spec_channel_of(q) == old(self).spec_channel_of(q),
            old(self).spec_peers().contains(peer) ==> exists|k: int|
                0 <= k < old(self).spec_peers().len() && old(self).spec_peers()[k] == peer
                    && final(self).spec_peers() == old(self).spec_peers().remove(k),
            !old(self).spec_peers().contains(peer) ==> final(self).spec_peers() == old(self).spec_peers(),
    {
        let ghost old_self = *self;
        let mut i: usize = 0;
        while i < self.items.len()
            invariant
                *self == old_self,
                i <= self.items@.len(),
                forall|j: int| 0 <= j < i ==> self.items@[j].0 != peer,
            decreases self.items@.len() - i,
        {
            if self.items[i].0 == peer {
                assert(old_self.spec_peers()[i as int] == peer);
                assert(old_self.spec_peers().contains(peer));
                self.items.remove(i);
                proof {
                    assert forall|k: int|
                        0 <= k < self.spec_peers().len() implies self.spec_peers()[k]
                        == old_self.spec_peers().remove(i as int)[k] by {
                        assert(self.spec_peers()[k] == self.items@[k].0);
                        if k < i {
                            assert(old_self.spec_peers()[k] == old_self.items@[k].0);
                        } else {
                            assert(old_self.spec_peers()[k + 1] == old_self.items@[k + 1].0);
                        }
                    }
                    assert(self.spec_peers() =~= old_self.spec_peers().remove(i as int));
                    self.lemma_post_removal(old_self, peer, i as int);
                    assert(0 <= (i as int) < old_self.spec_peers().len()
                        && old_self.spec_peers()[i as int] == peer && self.spec_peers()
                        == old_self.spec_peers().remove(i as int));
                }
                return;
            }
            i += 1;
        }
        proof {
            assert forall|k: int|
                0 <= k < old_self.spec_peers().len() implies old_self.spec_peers()[k] != peer by {
                assert(old_self.spec_peers()[k] == old_self.items@[k].0);
            }
            assert(!old_self.spec_peers().contains(peer));
        }
    }

    /// What holds after the entry at index `at` (the only entry for `peer`)
    /// has been taken out.
    proof fn lemma_post_removal(&self, prior: PeerChannels, peer: PeerId, at: int)
        requires
            prior.well_formed(),
            0 <= at < prior.items@.len(),
            prior.items@[at].0 == peer,
            self.items@ == prior.items@.remove(at),
        ensures
            self.well_formed(),
            !self.spec_peers().contains(peer),
            self.spec_channel_of(peer) is None,
            forall|q: PeerId|
                q != peer ==> (self.spec_peers().contains(q) <==> prior.spec_peers().contains(q)),
            forall|q: PeerId| q != peer ==> self.spec_channel_of(q) == prior.spec_channel_of(q),
    {
        let pre = prior.items@;
        let post = self.items@;
        assert(post.len() == pre.len() - 1);
        assert(forall|j: int| 0 <= j < at ==> post[j] == pre[j]);
        assert(forall|j: int| at <= j < post.len() ==> post[j] == pre[j + 1]);
        assert forall|a: int, b: int|
            0 <= a < b < post.len() implies post[a].0 != post[b].0 by {
            let pa: int = if a < at { a } else { a + 1 };
            let pb: int = if b < at { b } else { b + 1 };
            assert(post[a] == pre[pa]);
            assert(post[b] == pre[pb]);
        }
        assert forall|k: int|
            0 <= k < self.spec_peers().len() implies self.spec_peers()[k] != peer by {
            assert(self.spec_peers()[k] == post[k].0);
            if k < at {
                assert(pre[k].0 != pre[at].0);
            } else {
                assert(pre[k + 1].0 != pre[at].0);
            }
        }
        assert(!self.spec_peers().contains(peer));
        assert forall|q: PeerId| q != peer implies self.spec_channel_of(q)
            == prior.spec_channel_of(q) by {
            if exists|i: int| 0 <= i < post.len() && post[i].0 == q {
                let i = choose|i: int| 0 <= i < post.len() && post[i].0 == q;
                let ghost pi: int = if i < at { i } else { i + 1 };
                assert(pre[pi].0 == q);
                let j = choose|j: int| 0 <= j < pre.len() && pre[j].0 == q;
                assert(j == pi);
            } else if exists|i: int| 0 <= i < pre.len() && pre[i].0 == q {
                let i = choose|i: int| 0 <= i < pre.len() && pre[i].0 == q;
                assert(i != at);
                let ghost qi: int = if i < at { i } else { i - 1 };
                assert(post[qi].0 == q);
            }
        }
        assert forall|q: PeerId| q != peer implies (self.spec_peers().contains(q)
            <==> prior.spec_peers().contains(q)) by {
            self.lemma_member_iff_channel(q);
            prior.lemma_member_iff_channel(q);
        }
    }

    /// The entry at position `i` of the membership view.
    pub fn entry_at(&self, i: usize) -> (r: (PeerId, ChannelId))
        requires
            self.well_formed(),
            i < self.spec_peers().len(),
        ensures
            r.0 == self.spec_peers()[i as int],
            self.spec_channel_of(r.0) == Some(r.1),
    {
        let e = self.items[i];
        proof {
            assert(self.spec_peers()[i as int] == self.items@[i as int].0);
            let k = choose|k: int| 0 <= k < self.items@.len() && self.items@[k].0 == e.0;
            assert(k == i);
        }
        e
    }
}

} // verus!
