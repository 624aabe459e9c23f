//! The dials that are under way, each with whoever waits for its outcome.

use crate::address::PeerId;
use vstd::prelude::*;

verus! {

/// One waiting sender per peer that is being dialed. No peer is listed twice.
pub struct PendingDials<S> {
    entries: Vec<(PeerId, S)>,
}

/// Whether a peer has an entry.
spec fn has_entry<S>(entries: Seq<(PeerId, S)>, peer: Seq<u8>) -> bool {
    exists|i: int| 0 <= i < entries.len() && #[trigger] entries[i].0@ == peer
}

/// The place of a peer's entry.
spec fn place<S>(entries: Seq<(PeerId, S)>, peer: Seq<u8>) -> int {
    choose|i: int| 0 <= i < entries.len() && #[trigger] entries[i].0@ == peer
}

/// No peer has two entries.
spec fn distinct<S>(entries: Seq<(PeerId, S)>) -> bool {
    forall|i: int, j: int|
        0 <= i < j < entries.len() ==> (#[trigger] entries[i]).0@ != (#[trigger] entries[j]).0@
}

/// The sender of each peer that has an entry.
spec fn senders<S>(entries: Seq<(PeerId, S)>) -> Map<Seq<u8>, S> {
    Map::new(
        |peer: Seq<u8>| has_entry(entries, peer),
        |peer: Seq<u8>| entries[place(entries, peer)].1,
    )
}

proof fn lemma_entry_is_found<S>(entries: Seq<(PeerId, S)>, i: int)
    requires
        distinct(entries),
        0 <= i < entries.len(),
    ensures
        senders(entries).contains_key(entries[i].0@),
        senders(entries)[entries[i].0@] == entries[i].1,
{
    let j = place(entries, entries[i].0@);
    assert(entries[j].0@ == entries[i].0@);
}

impl<S> View for PendingDials<S> {
    type V = Map<Seq<u8>, S>;

    /// The sender that waits for the dial of each peer.
    closed spec fn view(&self) -> Map<Seq<u8>, S> {
        senders(self.entries@)
    }
}

impl<S> PendingDials<S> {
    #[verifier::type_invariant]
    spec fn well_formed(self) -> bool {
        distinct(self.entries@)
    }

    /// No dial is under way.
    pub fn new() -> (pending: Self)
        ensures
            pending@ == Map::<Seq<u8>, S>::empty(),
    {
        let pending = PendingDials { entries: Vec::new() };
        assert(pending@ =~= Map::<Seq<u8>, S>::empty());
        pending
    }

    /// The place of a peer's entry, where it has one.
    fn find(&self, peer: &PeerId) -> (found: Option<usize>)
        ensures
            found is Some <==> has_entry(self.entries@, peer@),
            found matches Some(i) ==> i < self.entries@.len() && self.entries@[i as int].0@
                == peer@,
    {
        let mut i: usize = 0;
        while i < self.entries.len()
            invariant
                i <= self.entries@.len(),
                forall|j: int| 0 <= j < i ==> (#[trigger] self.entries@[j]).0@ != peer@,
            decreases self.entries@.len() - i,
        {
            if self.entries[i].0.same_as(peer) {
                return Some(i);
            }
            i += 1;
        }
        None
    }

    /// Whether this peer is being dialed.
    pub fn contains(&self, peer: &PeerId) -> (found: bool)
        ensures
            found == self@.contains_key(peer@),
    {
        self.find(peer).is_some()
    }

    /// Lists a peer that is not listed yet.
    pub fn insert(&mut self, peer: PeerId, sender: S)
        requires
            !old(self)@.contains_key(peer@),
        ensures
            final(self)@ == old(self)@.insert(peer@, sender),
    {
        proof {
            use_type_invariant(&*self);
        }
        let ghost before = self.entries@;
        let mut entries: Vec<(PeerId, S)> = Vec::new();
        std::mem::swap(&mut entries, &mut self.entries);
        entries.push((peer, sender));
        proof {
            let after = entries@;
            assert(forall|i: int| 0 <= i < before.len() ==> after[i] == #[trigger] before[i]);
            assert forall|key: Seq<u8>| #[trigger] senders(after).contains_key(key) <==> senders(
                before,
            ).insert(peer@, sender).contains_key(key) by {
                if has_entry(before, key) {
                    let i = place(before, key);
                    assert(after[i].0@ == key);
                }
                assert(after[before.len() as int].0@ == peer@);
                if has_entry(after, key) && key != peer@ {
                    let i = place(after, key);
                    assert(before[i].0@ == key);
                }
            }
            assert forall|key: Seq<u8>| #[trigger] senders(after).contains_key(key) implies senders(
                after,
            )[key] == senders(before).insert(peer@, sender)[key] by {
                let i = place(after, key);
                lemma_entry_is_found(after, i);
                if i < before.len() {
                    lemma_entry_is_found(before, i);
                }
            }
            assert(senders(after) =~= senders(before).insert(peer@, sender));
        }
        self.entries = entries;
    }

    /// Takes a peer off the list and hands out the sender that waited for it.
    pub fn remove(&mut self, peer: &PeerId) -> (sender: Option<S>)
        ensures
            final(self)@ == old(self)@.remove(peer@),
            sender is Some <==> old(self)@.contains_key(peer@),
            sender matches Some(s) ==> s == old(self)@[peer@],
    {
        proof {
            use_type_invariant(&*self);
        }
        let ghost before = self.entries@;
        match self.find(peer) {
            Some(at) => {
                let mut entries: Vec<(PeerId, S)> = Vec::new();
                std::mem::swap(&mut entries, &mut self.entries);
                let (_, sender) = entries.remove(at);
                proof {
                    let after = entries@;
                    let at = at as int;
                    lemma_entry_is_found(before, at);
                    assert(forall|i: int|
                        0 <= i < after.len() ==> #[trigger] after[i] == before[if i < at {
                            i
                        } else {
                            i + 1
                        }]);
                    assert forall|key: Seq<u8>| #[trigger] senders(after).contains_key(key)
                        <==> senders(before).remove(peer@).contains_key(key) by {
                        if has_entry(before, key) && key != peer@ {
                            let i = place(before, key);
                            assert(after[if i < at {
                                i
                            } else {
                                i - 1
                            }].0@ == key);
                        }
                        if has_entry(after, key) {
                            let i = place(after, key);
                            assert(before[if i < at {
                                i
                            } else {
                                i + 1
                            }].0@ == key);
                        }
                    }
                    assert forall|key: Seq<u8>| #[trigger]
                        senders(after).contains_key(key) implies senders(after)[key] == senders(
                        before,
                    ).remove(peer@)[key] by {
                        let i = place(after, key);
                        lemma_entry_is_found(after, i);
                        lemma_entry_is_found(
                            before,
                            if i < at {
                                i
                            } else {
                                i + 1
                            },
                        );
                    }
                    assert(senders(after) =~= senders(before).remove(peer@));
                }
                self.entries = entries;
                Some(sender)
            },
            None => {
                assert(senders(before) =~= senders(before).remove(peer@));
                None
            },
        }
    }
}

} // verus!
