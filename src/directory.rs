use vstd::prelude::*;

verus! {

/// Address hint kept for a peer whose direct address is not known.
pub const RELAY_ADDRESS: &'static str = "<relay>";

/// Prefix of the key under which a peer's record is stored.
pub const KEY_PREFIX: &'static str = "peer:";

/// What the directory holds for one peer.
pub struct PeerConnection {
    pub node_id: String,
    pub address: String,
    /// Milliseconds since the Unix epoch.
    pub last_seen: u64,
    pub message_count: u64,
}

/// The mathematical content of a [`PeerConnection`].
pub struct PeerView {
    pub node_id: Seq<char>,
    pub address: Seq<char>,
    pub last_seen: u64,
    pub message_count: u64,
}

impl View for PeerConnection {
    type V = PeerView;

    open spec fn view(&self) -> PeerView {
        PeerView {
            node_id: self.node_id@,
            address: self.address@,
            last_seen: self.last_seen,
            message_count: self.message_count,
        }
    }
}

pub open spec fn view_of(o: Option<PeerConnection>) -> Option<PeerView> {
    match o {
        Some(p) => Some(p@),
        None => None,
    }
}

/// The record after a connection event with `node_id` at time `now`: a peer
/// never seen gets a fresh record reached through the relay, a known one keeps
/// its fields and has `last_seen` moved forward.
pub open spec fn touched(prev: Option<PeerView>, node_id: Seq<char>, now: u64) -> PeerView {
    match prev {
        Some(p) => PeerView { last_seen: max_u64(p.last_seen, now), ..p },
        None => PeerView {
            node_id,
            address: RELAY_ADDRESS@,
            last_seen: now,
            message_count: 0,
        },
    }
}

/// The record after `count` messages arrived at time `now`; a peer without a
/// record stays without one.
pub open spec fn counted(prev: Option<PeerView>, count: u64, now: u64) -> Option<PeerView> {
    match prev {
        Some(p) => Some(
            PeerView {
                last_seen: max_u64(p.last_seen, now),
                message_count: saturating(p.message_count, count),
                ..p
            },
        ),
        None => None,
    }
}

/// The record after one message for each arrival time in `times`, in that order.
pub open spec fn delivered(prev: Option<PeerView>, times: Seq<u64>) -> Option<PeerView>
    decreases times.len(),
{
    if times.len() == 0 {
        prev
    } else {
        counted(delivered(prev, times.drop_last()), 1, times.last())
    }
}

/// The largest of `start` and every time in `times`.
pub open spec fn latest(start: u64, times: Seq<u64>) -> u64
    decreases times.len(),
{
    if times.len() == 0 {
        start
    } else {
        max_u64(latest(start, times.drop_last()), times.last())
    }
}

/// The key of a peer's record: the prefix followed by the identifier.
pub open spec fn key_of(node_id: Seq<char>) -> Seq<char> {
    KEY_PREFIX@ + node_id
}

pub open spec fn max_u64(a: u64, b: u64) -> u64 {
    if a >= b { a } else { b }
}

/// A counter that stops at the largest `u64` instead of wrapping.
pub open spec fn saturating(a: u64, b: u64) -> u64 {
    if a as int + b as int > u64::MAX as int { u64::MAX } else { (a + b) as u64 }
}

/// The key under which the record of `node_id` is stored.
pub fn peer_key(node_id: &str) -> (r: String)
    ensures
        r@ == key_of(node_id@),
{
    let k = String::from_str(KEY_PREFIX);
    k.concat(node_id)
}

/// The directory, under the node's data directory, that holds the store.
pub fn store_path(data_dir: &str) -> (r: String)
    ensures
        r@ == data_dir@ + "/peers"@,
{
    let dir = String::from_str(data_dir);
    dir.concat("/peers")
}

/// The record to store after a connection event with `node_id` at time `now`,
/// given the record stored so far.
pub fn touch_peer(existing: Option<PeerConnection>, node_id: String, now: u64) -> (r:
    PeerConnection)
    ensures
        r@ == touched(view_of(existing), node_id@, now),
{
    match existing {
        Some(p) => {
            let last_seen = if p.last_seen >= now { p.last_seen } else { now };
            PeerConnection { last_seen, ..p }
        },
        None => PeerConnection {
            node_id,
            address: String::from_str(RELAY_ADDRESS),
            last_seen: now,
            message_count: 0,
        },
    }
}

/// The record to store after `count` messages from a peer arrived at time
/// `now`, given the record stored so far; `None` where there is none.
pub fn count_messages(existing: Option<PeerConnection>, count: u64, now: u64) -> (r: Option<
    PeerConnection,
>)
    ensures
        view_of(r) == counted(view_of(existing), count, now),
{
    match existing {
        Some(p) => {
            let last_seen = if p.last_seen >= now { p.last_seen } else { now };
            let message_count = if p.message_count > u64::MAX - count {
                u64::MAX
            } else {
                p.message_count + count
            };
            Some(PeerConnection { last_seen, message_count, ..p })
        },
        None => None,
    }
}

/// A record never goes back: neither event lowers `last_seen` or
/// `message_count`, nor changes the identifier or the address.
pub proof fn lemma_records_never_go_back(p: PeerView, node_id: Seq<char>, count: u64, now: u64)
    ensures
        touched(Some(p), node_id, now).last_seen >= p.last_seen,
        touched(Some(p), node_id, now).message_count == p.message_count,
        touched(Some(p), node_id, now).node_id == p.node_id,
        touched(Some(p), node_id, now).address == p.address,
        counted(Some(p), count, now).unwrap().last_seen >= p.last_seen,
        counted(Some(p), count, now).unwrap().message_count >= p.message_count,
        counted(Some(p), count, now).unwrap().node_id == p.node_id,
        counted(Some(p), count, now).unwrap().address == p.address,
{
}

/// Every message is counted: one message for each of `times`, applied one
/// after the other in any order the store linearised them in, raises the count
/// by exactly the number of messages, moves `last_seen` to the latest time
/// seen, and leaves identifier and address alone.
pub proof fn lemma_no_lost_updates(p: PeerView, times: Seq<u64>)
    requires
        p.message_count + times.len() <= u64::MAX,
    ensures
        delivered(Some(p), times) == Some(
            PeerView {
                last_seen: latest(p.last_seen, times),
                message_count: (p.message_count + times.len()) as u64,
                ..p
            },
        ),
    decreases times.len(),
{
    if times.len() > 0 {
        lemma_no_lost_updates(p, times.drop_last());
    }
}

/// After the first contact with a peer never seen before, and one message for
/// each of `times` since, the peer has a record whose count is the number of
/// those messages.
pub proof fn lemma_first_contact_then_messages(node_id: Seq<char>, now: u64, times: Seq<u64>)
    requires
        times.len() <= u64::MAX,
    ensures
        delivered(Some(touched(None, node_id, now)), times) is Some,
        delivered(Some(touched(None, node_id, now)), times).unwrap().node_id == node_id,
        delivered(Some(touched(None, node_id, now)), times).unwrap().message_count
            == times.len(),
{
    lemma_no_lost_updates(touched(None, node_id, now), times);
}

} // verus!
