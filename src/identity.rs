use vstd::prelude::*;

verus! {

/// The digits of lower-case hexadecimal.
pub open spec fn hex_digits() -> Seq<char> {
    seq!['0', '1', '2', '3', '4', '5', '6', '7', '8', '9', 'a', 'b', 'c', 'd', 'e', 'f']
}

/// The lower-case hexadecimal text of `b`: two digits for each byte, the high
/// half first.
pub open spec fn hex_of(b: Seq<u8>) -> Seq<char>
    decreases b.len(),
{
    if b.len() == 0 {
        Seq::empty()
    } else {
        hex_of(b.drop_last()) + seq![
            hex_digits()[b.last() as int / 16],
            hex_digits()[b.last() as int % 16],
        ]
    }
}

/// Relies on `hex::encode`: each byte becomes two digits of
/// `0123456789abcdef`, the high half first, in the order of the bytes.
#[verifier::external_body]
fn hex_encode(bytes: &[u8]) -> (r: String)
    ensures
        r@ == hex_of(bytes@),
{
    hex::encode(bytes)
}

/// The public key of a node, as the hexadecimal text it is shown in.
pub fn public_key_hex(key: &[u8]) -> (r: String)
    ensures
        r@ == hex_of(key@),
{
    hex_encode(key)
}

/// Who this node is, as shown to the user.
pub struct NodeInfo {
    pub node_id: String,
    pub public_key: String,
}

impl NodeInfo {
    /// The identity of the node `node_id` whose public key has the bytes `key`.
    pub fn new(node_id: String, key: &[u8]) -> (r: NodeInfo)
        ensures
            r.node_id@ == node_id@,
            r.public_key@ == hex_of(key@),
    {
        NodeInfo { node_id, public_key: public_key_hex(key) }
    }
}

/// One message of a conversation as the history lists it.
pub struct MessageHistoryItem {
    pub id: String,
    pub sender: String,
    pub recipient: String,
    pub content: String,
    /// Milliseconds since the Unix epoch.
    pub timestamp: u64,
}

/// A known peer as the peer list shows it.
pub struct PeerInfo {
    pub peer_id: String,
    /// Milliseconds since the Unix epoch.
    pub last_seen: u64,
    pub message_count: u64,
}

} // verus!
