//! Identifiers of peers, as the transport assigns them.

use vstd::prelude::*;
use vstd::slice::slice_to_vec;

verus! {

/// The identifier of a peer.
///
/// The transport assigns it; the node only carries it around and hands it back.
/// Its view is the identifier's byte encoding.
#[derive(Debug, PartialEq, Eq, Hash)]
pub struct PeerIdentifier {
    bytes: Vec<u8>,
}

impl View for PeerIdentifier {
    type V = Seq<u8>;

    closed spec fn view(&self) -> Seq<u8> {
        self.bytes@
    }
}

impl Clone for PeerIdentifier {
    /// A second value for the same identifier.
    fn clone(&self) -> (peer: PeerIdentifier)
        ensures
            peer@ == self@,
    {
        PeerIdentifier { bytes: slice_to_vec(self.bytes.as_slice()) }
    }
}

impl PeerIdentifier {
    /// Wraps the byte encoding of an identifier.
    pub fn new(bytes: Vec<u8>) -> (peer: PeerIdentifier)
        ensures
            peer@ == bytes@,
    {
        PeerIdentifier { bytes }
    }

    /// The byte encoding of the identifier.
    pub fn as_bytes(&self) -> (bytes: &[u8])
        ensures
            bytes@ == self@,
    {
        self.bytes.as_slice()
    }

    /// Whether two identifiers name the same peer.
    pub fn same(&self, other: &PeerIdentifier) -> (same: bool)
        ensures
            same == (self@ == other@),
    {
        let n: usize = self.bytes.len();
        if other.bytes.len() != n {
            return false;
        }
        let mut i: usize = 0;
        while i < n
            invariant
                n == self.bytes@.len(),
                n == other.bytes@.len(),
                i <= n,
                forall|k: int| 0 <= k < i ==> self.bytes@[k] == other.bytes@[k],
            decreases n - i,
        {
            if self.bytes[i] != other.bytes[i] {
                return false;
            }
            i = i + 1;
        }
        assert(self.bytes@ =~= other.bytes@);
        true
    }
}

} // verus!
