//! The trust gate: which peers the node admits to its mesh.

use crate::behaviour::{lemma_protocol_version_text_injective, protocol_version_text};
use vstd::prelude::*;

verus! {

/// What the trust gate decides about a peer.
#[derive(Clone, Copy, Debug, PartialEq, Eq, Structural)]
pub enum Verdict {
    /// The peer speaks this node's protocol version and is admitted.
    Admit,
    /// The peer announced anything else and is turned away.
    Reject,
}

/// The rule of admission: a peer is admitted exactly when the version it announces
/// is, character for character, the node's own.
pub open spec fn verdict(own_version: Seq<char>, announced: Seq<char>) -> Verdict {
    if announced == own_version {
        Verdict::Admit
    } else {
        Verdict::Reject
    }
}

/// Decides, for each handshake, whether the peer is admitted.
#[derive(Debug)]
pub struct PeerTrustGate {
    own_version: String,
}

impl PeerTrustGate {
    /// The protocol version that is admitted.
    pub closed spec fn own_version(&self) -> Seq<char> {
        self.own_version@
    }

    /// A gate that admits the peers announcing `own_version`.
    pub fn new(own_version: String) -> (gate: PeerTrustGate)
        ensures
            gate.own_version() == own_version@,
    {
        PeerTrustGate { own_version }
    }

    /// The protocol version that is admitted.
    pub fn version(&self) -> (text: &String)
        ensures
            text@ == self.own_version(),
    {
        &self.own_version
    }

    /// Decides about a peer that announced the protocol version `announced`.
    pub fn decide(&self, announced: &String) -> (decision: Verdict)
        ensures
            decision == verdict(self.own_version(), announced@),
    {
        if *announced == self.own_version {
            Verdict::Admit
        } else {
            Verdict::Reject
        }
    }
}

/// Admission fails closed: whoever is admitted announced exactly the node's
/// own version, and whoever announced it is admitted.
pub proof fn lemma_gate_admits_exactly_own_version(own_version: Seq<char>, announced: Seq<char>)
    ensures
        verdict(own_version, announced) == Verdict::Admit <==> announced == own_version,
        verdict(own_version, announced) == Verdict::Reject <==> announced != own_version,
{
}

/// No range of versions is admitted: of the peers that speak the node's
/// protocol, exactly those with the node's own major and minor version pass.
pub proof fn lemma_only_the_same_version_is_admitted(
    name: Seq<char>,
    major: nat,
    minor: nat,
    announced_major: nat,
    announced_minor: nat,
)
    ensures
        verdict(
            protocol_version_text(name, major, minor),
            protocol_version_text(name, announced_major, announced_minor),
        ) == Verdict::Admit <==> (announced_major == major && announced_minor == minor),
{
    if protocol_version_text(name, major, minor) == protocol_version_text(
        name,
        announced_major,
        announced_minor,
    ) {
        lemma_protocol_version_text_injective(name, major, minor, announced_major, announced_minor);
    }
}

} // verus!
