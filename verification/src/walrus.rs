//! The walrus nodes that are let in: a list that is given once, at the start.
use crate::keys::Secp256r1PublicKey;
use crate::table::KeyTable;
use vstd::prelude::*;
use vstd::slice::slice_to_vec;

verus! {

/// A walrus node.
#[derive(Debug, PartialEq, Eq, Hash)]
pub struct WalrusPeer {
    pub name: String,
    pub public_key: Secp256r1PublicKey,
}

/// What `WalrusPeer` stands for.
pub struct PeerView {
    pub name: Seq<char>,
    pub public_key: Seq<u8>,
}

impl View for WalrusPeer {
    type V = PeerView;

    open spec fn view(&self) -> PeerView {
        PeerView { name: self.name@, public_key: self.public_key@ }
    }
}

impl Clone for WalrusPeer {
    fn clone(&self) -> (copy: Self)
        ensures
            copy@ == self@,
    {
        WalrusPeer { name: self.name.clone(), public_key: self.public_key.clone() }
    }
}

/// Peers, each with its key.
pub open spec fn keyed(peers: Seq<PeerView>) -> Seq<(Seq<u8>, PeerView)> {
    peers.map_values(|peer: PeerView| (peer.public_key, peer))
}

/// What peers stand for.
pub open spec fn peer_views(peers: Seq<WalrusPeer>) -> Seq<PeerView> {
    peers.map_values(|peer: WalrusPeer| peer@)
}

/// Knows the walrus nodes by their keys.
#[derive(Debug)]
pub struct WalrusProvider {
    peers: KeyTable<WalrusPeer>,
}

impl View for WalrusProvider {
    type V = Map<Seq<u8>, PeerView>;

    closed spec fn view(&self) -> Map<Seq<u8>, PeerView> {
        self.peers@.map_values(|peer: WalrusPeer| peer@)
    }
}

impl WalrusProvider {
    /// A provider that knows the given peers; of several with one key, the last.
    pub fn new(peers: Vec<WalrusPeer>) -> (provider: Self)
        ensures
            provider@ == crate::table::collected(keyed(peer_views(peers@))),
            forall|i: int|
                0 <= i < peers@.len() && (forall|j: int|
                    i < j < peers@.len() ==> (#[trigger] peers@[j]).public_key@
                        != peers@[i].public_key@) ==> {
                    &&& provider@.contains_key((#[trigger] peers@[i]).public_key@)
                    &&& provider@[peers@[i].public_key@].name == peers@[i].name@
                    &&& provider@[peers@[i].public_key@].public_key == peers@[i].public_key@
                },
            forall|key: Seq<u8>| #[trigger]
                provider@.contains_key(key) ==> exists|i: int|
                    0 <= i < peers@.len() && (#[trigger] peers@[i]).public_key@ == key,
    {
        let n: usize = peers.len();
        let mut pairs: Vec<(Vec<u8>, WalrusPeer)> = Vec::new();
        let mut i: usize = 0;
        while i < n
            invariant
                i <= n,
                n == peers@.len(),
                pairs@.len() == i,
                forall|j: int|
                    0 <= j < i ==> (#[trigger] pairs@[j]).0@ == peers@[j]@.public_key && pairs@[j].1@
                        == peers@[j]@,
            decreases n - i,
        {
            pairs.push((slice_to_vec(peers[i].public_key.as_bytes()), peers[i].clone()));
            i += 1;
        }
        proof {
            let f = |peer: WalrusPeer| peer@;
            crate::table::collected_mapped(crate::table::pairs_of(pairs@), f);
            assert(crate::table::mapped(crate::table::pairs_of(pairs@), f) =~= keyed(
                peer_views(peers@),
            ));
            let views = peer_views(peers@);
            assert forall|i: int|
                0 <= i < peers@.len() && (forall|j: int|
                    i < j < peers@.len() ==> (#[trigger] peers@[j]).public_key@
                        != peers@[i].public_key@) implies {
                &&& crate::table::collected(keyed(views)).contains_key(
                    (#[trigger] peers@[i]).public_key@,
                )
                &&& crate::table::collected(keyed(views))[peers@[i].public_key@].name
                    == peers@[i].name@
                &&& crate::table::collected(keyed(views))[peers@[i].public_key@].public_key
                    == peers@[i].public_key@
            } by {
                assert forall|j: int| i < j < views.len() implies (#[trigger] views[j]).public_key
                    != views[i].public_key by {
                    assert(peers@[j].public_key@ != peers@[i].public_key@);
                }
                last_peer_is_known(views, i);
            }
            assert forall|key: Seq<u8>| #[trigger]
                crate::table::collected(keyed(views)).contains_key(key) implies exists|i: int|
                0 <= i < peers@.len() && (#[trigger] peers@[i]).public_key@ == key by {
                known_under_own_keys(views, key);
                let i = choose|i: int|
                    0 <= i < views.len() && (#[trigger] views[i]).public_key == key;
                assert(peers@[i].public_key@ == key);
            }
        }
        WalrusProvider { peers: KeyTable::from_pairs(pairs) }
    }

    /// The peer with the given key.
    pub fn peer(&self, key: &Secp256r1PublicKey) -> (peer: Option<&WalrusPeer>)
        ensures
            peer is Some <==> self@.contains_key(key@),
            peer is Some ==> peer->0@ == self@[key@],
            peer is Some ==> peer->0.name@ == self@[key@].name,
            peer is Some ==> peer->0.public_key@ == self@[key@].public_key,
    {
        self.peers.get(key.as_bytes())
    }
}

impl Clone for WalrusProvider {
    fn clone(&self) -> (copy: Self)
        ensures
            copy@ == self@,
    {
        let held = self.peers.pairs();
        let n: usize = held.len();
        let mut pairs: Vec<(Vec<u8>, WalrusPeer)> = Vec::new();
        let mut i: usize = 0;
        while i < n
            invariant
                i <= n,
                n == held@.len(),
                pairs@.len() == i,
                forall|j: int|
                    0 <= j < i ==> (#[trigger] pairs@[j]).0@ == held@[j].0@ && pairs@[j].1@
                        == held@[j].1@,
            decreases n - i,
        {
            pairs.push((slice_to_vec(held[i].0.as_slice()), held[i].1.clone()));
            i += 1;
        }
        proof {
            let f = |peer: WalrusPeer| peer@;
            crate::table::collected_mapped(crate::table::pairs_of(pairs@), f);
            crate::table::collected_mapped(crate::table::pairs_of(held@), f);
            assert(crate::table::mapped(crate::table::pairs_of(pairs@), f)
                =~= crate::table::mapped(crate::table::pairs_of(held@), f));
        }
        WalrusProvider { peers: KeyTable::from_pairs(pairs) }
    }
}

impl Default for WalrusProvider {
    fn default() -> (provider: Self)
        ensures
            provider@ == Map::<Seq<u8>, PeerView>::empty(),
    {
        let none: Vec<WalrusPeer> = Vec::new();
        WalrusProvider::new(none)
    }
}

/// Peers stand for themselves, one by one, each with its own key.
pub proof fn peers_one_by_one(peers: Seq<WalrusPeer>)
    ensures
        peer_views(peers).len() == peers.len(),
        keyed(peer_views(peers)).len() == peers.len(),
        forall|i: int|
            0 <= i < peers.len() ==> {
                &&& (#[trigger] peer_views(peers)[i]).name == peers[i].name@
                &&& peer_views(peers)[i].public_key == peers[i].public_key@
                &&& keyed(peer_views(peers))[i] == (peers[i].public_key@, peer_views(peers)[i])
            },
{
}

/// A peer is known under its own key, and under no other.
pub proof fn known_under_own_keys(peers: Seq<PeerView>, key: Seq<u8>)
    ensures
        crate::table::collected(keyed(peers)).contains_key(key) <==> exists|i: int|
            0 <= i < peers.len() && (#[trigger] peers[i]).public_key == key,
        crate::table::collected(keyed(peers)).contains_key(key) ==> crate::table::collected(
            keyed(peers),
        )[key].public_key == key,
    decreases peers.len(),
{
    if peers.len() > 0 {
        known_under_own_keys(peers.drop_last(), key);
        assert(keyed(peers).drop_last() =~= keyed(peers.drop_last()));
        let rest = peers.drop_last();
        assert(peers[peers.len() - 1] == peers.last());
        if exists|i: int| 0 <= i < rest.len() && (#[trigger] rest[i]).public_key == key {
            let i = choose|i: int| 0 <= i < rest.len() && (#[trigger] rest[i]).public_key == key;
            assert(peers[i].public_key == key);
        }
        if exists|i: int| 0 <= i < peers.len() && (#[trigger] peers[i]).public_key == key {
            let i = choose|i: int| 0 <= i < peers.len() && (#[trigger] peers[i]).public_key == key;
            if i < rest.len() {
                assert(rest[i].public_key == key);
            }
        }
    }
}

/// Of several peers with one key the last is known.
pub proof fn last_peer_is_known(peers: Seq<PeerView>, i: int)
    requires
        0 <= i < peers.len(),
        forall|j: int| i < j < peers.len() ==> (#[trigger] peers[j]).public_key != peers[i].public_key,
    ensures
        crate::table::collected(keyed(peers)).contains_key(peers[i].public_key),
        crate::table::collected(keyed(peers))[peers[i].public_key] == peers[i],
{
    assert forall|j: int| i < j < keyed(peers).len() implies (#[trigger] keyed(peers)[j]).0
        != keyed(peers)[i].0 by {
        assert(peers[j].public_key != peers[i].public_key);
    }
    crate::table::collected_last_wins(keyed(peers), i);
}

} // verus!
