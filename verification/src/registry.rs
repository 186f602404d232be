//! The peers that are attached to the controller.

use vstd::prelude::*;

verus! {

/// What the controller keeps about an attached peer.
#[derive(Debug, Clone, PartialEq, Eq)]
pub struct PeerInfo {
    pub device_id: String,
    pub screen_w: u32,
    pub screen_h: u32,
}

/// The peers listed in `peers` as a map from device to screen size, width
/// first. Of two entries for one device the later one counts.
pub open spec fn peers_map(peers: Seq<PeerInfo>) -> Map<Seq<char>, (u32, u32)>
    decreases peers.len(),
{
    if peers.len() == 0 {
        Map::empty()
    } else {
        peers_map(peers.drop_last()).insert(
            peers.last().device_id@,
            (peers.last().screen_w, peers.last().screen_h),
        )
    }
}

proof fn lemma_peers_map_push(peers: Seq<PeerInfo>, peer: PeerInfo)
    ensures
        peers_map(peers.push(peer)) == peers_map(peers).insert(
            peer.device_id@,
            (peer.screen_w, peer.screen_h),
        ),
{
    assert(peers.push(peer).drop_last() =~= peers);
}

proof fn lemma_peers_map_remove(peers: Seq<PeerInfo>, i: int)
    requires
        0 <= i < peers.len(),
    ensures
        peers_map(peers.remove(i)).remove(peers[i].device_id@) == peers_map(peers).remove(
            peers[i].device_id@,
        ),
    decreases peers.len(),
{
    let id = peers[i].device_id@;
    if i == peers.len() - 1 {
        assert(peers.remove(i) =~= peers.drop_last());
        assert(peers_map(peers.drop_last()).remove(id) =~= peers_map(peers).remove(id));
    } else {
        let front = peers.drop_last();
        lemma_peers_map_remove(front, i);
        let shorter = peers.remove(i);
        let last = peers.last();
        assert(shorter.drop_last() =~= front.remove(i));
        assert(shorter.last() == last);
        assert(front[i] == peers[i]);
        assert(peers_map(shorter) == peers_map(front.remove(i)).insert(
            last.device_id@,
            (last.screen_w, last.screen_h),
        ));
        assert(peers_map(peers) == peers_map(front).insert(
            last.device_id@,
            (last.screen_w, last.screen_h),
        ));
        assert(peers_map(front.remove(i)).insert(
            last.device_id@,
            (last.screen_w, last.screen_h),
        ).remove(id) =~= peers_map(front.remove(i)).remove(id).insert(
            last.device_id@,
            (last.screen_w, last.screen_h),
        ).remove(id));
        assert(peers_map(front).insert(last.device_id@, (last.screen_w, last.screen_h)).remove(id)
            =~= peers_map(front).remove(id).insert(
            last.device_id@,
            (last.screen_w, last.screen_h),
        ).remove(id));
    }
}

proof fn lemma_peers_map_take(peers: Seq<PeerInfo>, i: int)
    requires
        0 <= i < peers.len(),
    ensures
        peers_map(peers.take(i + 1)) == peers_map(peers.take(i)).insert(
            peers[i].device_id@,
            (peers[i].screen_w, peers[i].screen_h),
        ),
{
    assert(peers.take(i + 1).drop_last() =~= peers.take(i));
}

/// The attached peers, each under its device id.
#[derive(Debug)]
pub struct PeerRegistry {
    peers: Vec<PeerInfo>,
}

impl View for PeerRegistry {
    type V = Map<Seq<char>, (u32, u32)>;

    closed spec fn view(&self) -> Map<Seq<char>, (u32, u32)> {
        peers_map(self.peers@)
    }
}

impl PeerRegistry {
    /// A registry without peers.
    pub fn new() -> (registry: Self)
        ensures
            registry@ == Map::<Seq<char>, (u32, u32)>::empty(),
    {
        PeerRegistry { peers: Vec::new() }
    }

    /// Whether the device `device_id` is attached.
    pub fn contains(&self, device_id: &String) -> (found: bool)
        ensures
            found == self@.contains_key(device_id@),
    {
        self.get(device_id).is_some()
    }

    /// The screen size of the device `device_id`, width first, if it is
    /// attached.
    pub fn get(&self, device_id: &String) -> (size: Option<(u32, u32)>)
        ensures
            size == if self@.contains_key(device_id@) {
                Some(self@[device_id@])
            } else {
                None
            },
    {
        let mut found: Option<(u32, u32)> = None;
        let mut i: usize = 0;
        while i < self.peers.len()
            invariant
                i <= self.peers.len(),
                found == if peers_map(self.peers@.take(i as int)).contains_key(device_id@) {
                    Some(peers_map(self.peers@.take(i as int))[device_id@])
                } else {
                    None
                },
            decreases self.peers.len() - i,
        {
            proof {
                lemma_peers_map_take(self.peers@, i as int);
            }
            if self.peers[i].device_id == *device_id {
                found = Some((self.peers[i].screen_w, self.peers[i].screen_h));
            }
            i += 1;
        }
        assert(self.peers@.take(i as int) =~= self.peers@);
        found
    }

    /// Attaches the device `device_id` with its screen size, in place of
    /// what was attached under that id.
    pub fn insert(&mut self, device_id: String, screen_w: u32, screen_h: u32)
        ensures
            final(self)@ == old(self)@.insert(device_id@, (screen_w, screen_h)),
    {
        self.remove(&device_id);
        let peer = PeerInfo { device_id, screen_w, screen_h };
        proof {
            lemma_peers_map_push(self.peers@, peer);
        }
        self.peers.push(peer);
        assert(self@ =~= old(self)@.insert(device_id@, (screen_w, screen_h)));
    }

    /// Detaches the device `device_id`.
    pub fn remove(&mut self, device_id: &String)
        ensures
            final(self)@ == old(self)@.remove(device_id@),
    {
        let mut i: usize = 0;
        while i < self.peers.len()
            invariant
                i <= self.peers.len(),
                peers_map(self.peers@).remove(device_id@) == peers_map(old(self).peers@).remove(
                    device_id@,
                ),
                !peers_map(self.peers@.take(i as int)).contains_key(device_id@),
            decreases self.peers.len() - i,
        {
            if self.peers[i].device_id == *device_id {
                proof {
                    lemma_peers_map_remove(self.peers@, i as int);
                    assert(self.peers@.remove(i as int).take(i as int) =~= self.peers@.take(
                        i as int,
                    ));
                }
                self.peers.remove(i);
            } else {
                proof {
                    lemma_peers_map_take(self.peers@, i as int);
                }
                i += 1;
            }
        }
        assert(self.peers@.take(i as int) =~= self.peers@);
        assert(peers_map(self.peers@).remove(device_id@) =~= peers_map(self.peers@));
    }
}

} // verus!
