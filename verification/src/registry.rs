//! The registry of live downstream connections, one per peer at most.
//!
//! A peer is known by its transport address written as text. The registry
//! is the only record of which peers are connected downstream. Each of its
//! operations is a short step on memory: a caller that shares the
//! registry between tasks holds its lock for one operation at a time and
//! never while it dials, reads or writes.

use vstd::prelude::*;

verus! {

/// The session of one peer: who the peer is, and the handle through which
/// its downstream connection is written to.
pub struct PeerSession<H> {
    peer: String,
    writer: H,
}

/// The sessions of all connected peers.
pub struct ConnectionRegistry<H> {
    sessions: Vec<PeerSession<H>>,
}

/// No two sessions belong to the same peer.
spec fn distinct_peers<H>(s: Seq<PeerSession<H>>) -> bool {
    forall|i: int, j: int| 0 <= i < j < s.len() ==> s[i].peer@ != s[j].peer@
}

/// One of the sessions belongs to `peer`.
spec fn has_peer<H>(s: Seq<PeerSession<H>>, peer: Seq<char>) -> bool {
    exists|i: int| 0 <= i < s.len() && s[i].peer@ == peer
}

/// The place of the session of `peer`.
spec fn place_of<H>(s: Seq<PeerSession<H>>, peer: Seq<char>) -> int {
    choose|i: int| 0 <= i < s.len() && s[i].peer@ == peer
}

/// The sessions as a map from peer to handle.
spec fn as_map<H>(s: Seq<PeerSession<H>>) -> Map<Seq<char>, H> {
    Map::new(|peer: Seq<char>| has_peer(s, peer), |peer: Seq<char>| s[place_of(s, peer)].writer)
}

proof fn lemma_place<H>(s: Seq<PeerSession<H>>, i: int)
    requires
        distinct_peers(s),
        0 <= i < s.len(),
    ensures
        has_peer(s, s[i].peer@),
        place_of(s, s[i].peer@) == i,
        as_map(s).dom().contains(s[i].peer@),
        as_map(s)[s[i].peer@] == s[i].writer,
{
    let j = place_of(s, s[i].peer@);
    assert(0 <= j < s.len() && s[j].peer@ == s[i].peer@);
    if j < i {
        assert(s[j].peer@ != s[i].peer@);
    } else if i < j {
        assert(s[i].peer@ != s[j].peer@);
    }
}

proof fn lemma_push<H>(s: Seq<PeerSession<H>>, e: PeerSession<H>)
    requires
        distinct_peers(s),
        !has_peer(s, e.peer@),
    ensures
        distinct_peers(s.push(e)),
        as_map(s.push(e)) == as_map(s).insert(e.peer@, e.writer),
{
    let t = s.push(e);
    assert forall|i: int, j: int| 0 <= i < j < t.len() implies t[i].peer@ != t[j].peer@ by {
        if j == s.len() {
            assert(s[i].peer@ != e.peer@);
        }
    }
    assert forall|peer: Seq<char>| has_peer(t, peer) <==> (has_peer(s, peer) || peer
        == e.peer@) by {
        if has_peer(t, peer) {
            let i = place_of(t, peer);
            if i < s.len() {
                assert(s[i].peer@ == peer);
            }
        }
        if has_peer(s, peer) {
            let i = place_of(s, peer);
            assert(t[i].peer@ == peer);
        }
        if peer == e.peer@ {
            assert(t[s.len() as int].peer@ == peer);
        }
    }
    assert forall|peer: Seq<char>| has_peer(t, peer) implies #[trigger] as_map(t)[peer] == as_map(
        s,
    ).insert(e.peer@, e.writer)[peer] by {
        if peer == e.peer@ {
            lemma_place(t, s.len() as int);
        } else {
            let i = place_of(s, peer);
            lemma_place(s, i);
            assert(t[i] == s[i]);
            lemma_place(t, i);
        }
    }
    assert(as_map(t) =~= as_map(s).insert(e.peer@, e.writer));
}

proof fn lemma_remove<H>(s: Seq<PeerSession<H>>, at: int)
    requires
        distinct_peers(s),
        0 <= at < s.len(),
    ensures
        distinct_peers(s.remove(at)),
        as_map(s.remove(at)) == as_map(s).remove(s[at].peer@),
{
    let t = s.remove(at);
    let gone = s[at].peer@;
    assert forall|i: int| 0 <= i < t.len() implies t[i] == s[if i < at {
        i
    } else {
        i + 1
    }] by {}
    assert forall|i: int, j: int| 0 <= i < j < t.len() implies t[i].peer@ != t[j].peer@ by {
        let a = if i < at { i } else { i + 1 };
        let b = if j < at { j } else { j + 1 };
        assert(s[a].peer@ != s[b].peer@);
    }
    assert forall|peer: Seq<char>| has_peer(t, peer) <==> (has_peer(s, peer) && peer != gone) by {
        if has_peer(t, peer) {
            let i = place_of(t, peer);
            let a = if i < at { i } else { i + 1 };
            assert(s[a].peer@ == peer);
            if a < at {
                assert(s[a].peer@ != s[at].peer@);
            } else {
                assert(s[at].peer@ != s[a].peer@);
            }
        }
        if has_peer(s, peer) && peer != gone {
            let a = place_of(s, peer);
            let i = if a < at { a } else { a - 1 };
            assert(t[i].peer@ == peer);
        }
    }
    assert forall|peer: Seq<char>| has_peer(t, peer) implies #[trigger] as_map(t)[peer] == as_map(
        s,
    ).remove(gone)[peer] by {
        let i = place_of(t, peer);
        let a = if i < at { i } else { i + 1 };
        lemma_place(t, i);
        lemma_place(s, a);
    }
    assert(as_map(t) =~= as_map(s).remove(gone));
}

proof fn lemma_count<H>(s: Seq<PeerSession<H>>)
    requires
        distinct_peers(s),
    ensures
        as_map(s).dom().finite(),
        as_map(s).dom().len() == s.len(),
    decreases s.len(),
{
    if s.len() == 0 {
        assert(as_map(s).dom() =~= Set::<Seq<char>>::empty());
    } else {
        let head = s.drop_last();
        let e = s.last();
        assert(distinct_peers(head));
        assert(!has_peer(head, e.peer@)) by {
            if has_peer(head, e.peer@) {
                let i = place_of(head, e.peer@);
                assert(s[i].peer@ != s[s.len() - 1].peer@);
            }
        }
        lemma_count(head);
        lemma_push(head, e);
        assert(head.push(e) =~= s);
    }
}

impl<H> View for ConnectionRegistry<H> {
    type V = Map<Seq<char>, H>;

    closed spec fn view(&self) -> Map<Seq<char>, H> {
        as_map(self.sessions@)
    }
}

impl<H> ConnectionRegistry<H> {
    #[verifier::type_invariant]
    spec fn one_session_per_peer(&self) -> bool {
        distinct_peers(self.sessions@)
    }

    /// A registry without sessions.
    pub fn new() -> (registry: ConnectionRegistry<H>)
        ensures
            registry@ == Map::<Seq<char>, H>::empty(),
    {
        let registry = ConnectionRegistry { sessions: Vec::new() };
        assert(registry@ =~= Map::<Seq<char>, H>::empty());
        registry
    }

    fn place(&self, peer: &String) -> (found: Option<usize>)
        ensures
            match found {
                Some(i) => i < self.sessions@.len() && self.sessions@[i as int].peer@ == peer@,
                None => !has_peer(self.sessions@, peer@),
            },
    {
        let mut i: usize = 0;
        while i < self.sessions.len()
            invariant
                i <= self.sessions@.len(),
                forall|j: int| 0 <= j < i ==> self.sessions@[j].peer@ != peer@,
            decreases self.sessions@.len() - i,
        {
            if self.sessions[i].peer == *peer {
                return Some(i);
            }
            i += 1;
        }
        None
    }

    /// How many peers have a session. Every peer counts once.
    pub fn len(&self) -> (n: usize)
        ensures
            self@.dom().finite(),
            n == self@.dom().len(),
    {
        proof {
            use_type_invariant(self);
            lemma_count(self.sessions@);
        }
        self.sessions.len()
    }

    /// Whether `peer` has a session.
    pub fn contains(&self, peer: &String) -> (known: bool)
        ensures
            known == self@.dom().contains(peer@),
    {
        self.place(peer).is_some()
    }

    /// The handle of the session of `peer`, if it has one.
    pub fn lookup(&self, peer: &String) -> (writer: Option<&H>)
        ensures
            match writer {
                Some(w) => self@.dom().contains(peer@) && *w == self@[peer@],
                None => !self@.dom().contains(peer@),
            },
    {
        match self.place(peer) {
            Some(i) => {
                proof {
                    use_type_invariant(self);
                    lemma_place(self.sessions@, i as int);
                }
                Some(&self.sessions[i].writer)
            },
            None => None,
        }
    }

    /// Gives `peer` a session with the handle `writer`, unless it has one:
    /// then the registry stays as it is and `writer` is handed back.
    pub fn insert(&mut self, peer: String, writer: H) -> (rejected: Option<H>)
        ensures
            old(self)@.dom().contains(peer@) ==> final(self)@ == old(self)@ && rejected == Some(
                writer,
            ),
            !old(self)@.dom().contains(peer@) ==> final(self)@ == old(self)@.insert(peer@, writer)
                && rejected is None,
    {
        match self.place(&peer) {
            Some(_) => Some(writer),
            None => {
                proof {
                    use_type_invariant(&*self);
                    lemma_push(self.sessions@, PeerSession { peer, writer });
                }
                let mut sessions: Vec<PeerSession<H>> = Vec::new();
                core::mem::swap(&mut self.sessions, &mut sessions);
                sessions.push(PeerSession { peer, writer });
                self.sessions = sessions;
                None
            },
        }
    }

    /// Ends the session of `peer` and hands out its handle; nothing
    /// happens if it has none.
    pub fn remove(&mut self, peer: &String) -> (writer: Option<H>)
        ensures
            final(self)@ == old(self)@.remove(peer@),
            match writer {
                Some(w) => old(self)@.dom().contains(peer@) && w == old(self)@[peer@],
                None => !old(self)@.dom().contains(peer@),
            },
    {
        match self.place(peer) {
            Some(i) => {
                proof {
                    use_type_invariant(&*self);
                    lemma_place(self.sessions@, i as int);
                    lemma_remove(self.sessions@, i as int);
                }
                let mut sessions: Vec<PeerSession<H>> = Vec::new();
                core::mem::swap(&mut self.sessions, &mut sessions);
                let session = sessions.remove(i);
                self.sessions = sessions;
                Some(session.writer)
            },
            None => {
                assert(self@.remove(peer@) =~= self@);
                None
            },
        }
    }
}

} // verus!
