//! What the node announces about itself, and the events that the transport's
//! three capabilities report: local discovery, the identification handshake
//! and the broadcast mesh.

use crate::decimal::{
    decimal_text, lemma_decimal_text_injective, lemma_decimal_text_is_digits, to_decimal,
};
use crate::peer::PeerIdentifier;
use vstd::prelude::*;
use vstd::string::StringExecFns;

verus! {

/// The name of the chat protocol.
pub const PROTOCOL_NAME: &'static str = "chat";

/// The major version of the chat protocol that this node speaks.
pub const VERSION_MAJOR: u64 = 0;

/// The minor version of the chat protocol that this node speaks.
pub const VERSION_MINOR: u64 = 1;

/// The identification string of the chat protocol that this node speaks.
pub const PROTOCOL_VERSION: &'static str = "chat/0.1";

/// The identification string of a protocol version: the name, a slash, the
/// major version, a dot and the minor version.
pub open spec fn protocol_version_text(name: Seq<char>, major: nat, minor: nat) -> Seq<char> {
    name + seq!['/'] + decimal_text(major) + seq!['.'] + decimal_text(minor)
}

/// Writes the identification string of a protocol version.
pub fn protocol_version(name: &str, major: u64, minor: u64) -> (text: String)
    ensures
        text@ == protocol_version_text(name@, major as nat, minor as nat),
{
    proof {
        reveal_strlit("/");
        reveal_strlit(".");
    }
    let mut text = String::from_str(name);
    text.append("/");
    text.append(to_decimal(major).as_str());
    text.append(".");
    text.append(to_decimal(minor).as_str());
    assert(text@ =~= protocol_version_text(name@, major as nat, minor as nat));
    text
}

/// The identification string that this node announces in the handshake and
/// expects of its peers: [`PROTOCOL_VERSION`], written from the protocol's
/// name and the two version numbers.
pub fn own_protocol_version() -> (text: String)
    ensures
        text@ == protocol_version_text(
            PROTOCOL_NAME@,
            VERSION_MAJOR as nat,
            VERSION_MINOR as nat,
        ),
        text@ == PROTOCOL_VERSION@,
{
    proof {
        lemma_protocol_version_is_written_out();
    }
    protocol_version(PROTOCOL_NAME, VERSION_MAJOR, VERSION_MINOR)
}

/// The constant [`PROTOCOL_VERSION`] is the identification string of the
/// protocol's name and the two version numbers.
pub proof fn lemma_protocol_version_is_written_out()
    ensures
        PROTOCOL_VERSION@ == protocol_version_text(
            PROTOCOL_NAME@,
            VERSION_MAJOR as nat,
            VERSION_MINOR as nat,
        ),
{
    reveal_strlit("chat/0.1");
    reveal_strlit("chat");
    assert(decimal_text(0) =~= seq!['0']);
    assert(decimal_text(1) =~= seq!['1']);
    assert(PROTOCOL_VERSION@ =~= protocol_version_text(
        PROTOCOL_NAME@,
        VERSION_MAJOR as nat,
        VERSION_MINOR as nat,
    ));
}

/// Two versions of one protocol have the same identification string only if
/// they are the same version: the string tells every major and every minor
/// version from every other.
pub proof fn lemma_protocol_version_text_injective(
    name: Seq<char>,
    major: nat,
    minor: nat,
    other_major: nat,
    other_minor: nat,
)
    requires
        protocol_version_text(name, major, minor) == protocol_version_text(
            name,
            other_major,
            other_minor,
        ),
    ensures
        major == other_major,
        minor == other_minor,
{
    let head = name + seq!['/'];
    let one = decimal_text(major) + seq!['.'] + decimal_text(minor);
    let two = decimal_text(other_major) + seq!['.'] + decimal_text(other_minor);
    assert(protocol_version_text(name, major, minor) =~= head + one);
    assert(protocol_version_text(name, other_major, other_minor) =~= head + two);
    assert((head + one).skip(head.len() as int) =~= one);
    assert((head + two).skip(head.len() as int) =~= two);
    assert(one == two);
    lemma_decimal_text_is_digits(major);
    lemma_decimal_text_is_digits(other_major);
    let width = decimal_text(major).len() as int;
    let other_width = decimal_text(other_major).len() as int;
    assert(one[width] == '.');
    assert(two[other_width] == '.');
    if width < other_width {
        assert(two[width] == decimal_text(other_major)[width]);
    }
    if other_width < width {
        assert(one[other_width] == decimal_text(major)[other_width]);
    }
    assert(width == other_width);
    assert(one.take(width) =~= decimal_text(major));
    assert(two.take(width) =~= decimal_text(other_major));
    assert(one.skip(width + 1) =~= decimal_text(minor));
    assert(two.skip(width + 1) =~= decimal_text(other_minor));
    lemma_decimal_text_injective(major, other_major);
    lemma_decimal_text_injective(minor, other_minor);
}

/// What local discovery reports.
#[derive(Debug)]
pub enum MdnsEvent {
    /// Advertisements of these peers were seen on the local network.
    Discovered(Vec<PeerIdentifier>),
    /// The advertisements of these peers were not refreshed in time.
    Expired(Vec<PeerIdentifier>),
}

/// What the identification handshake reports.
#[derive(Debug)]
pub enum IdentifyEvent {
    /// A peer told who it is.
    Received {
        /// The peer that the handshake was made with.
        peer_id: PeerIdentifier,
        /// The protocol version that the peer announced.
        protocol_version: String,
    },
    /// Any other step of the handshake.
    Other,
}

/// What the broadcast mesh reports.
#[derive(Debug)]
pub enum GossipsubEvent {
    /// A message arrived on the chat topic.
    Message {
        /// The peer that the message came from.
        propagation_source: PeerIdentifier,
        /// The bytes that travelled on the wire.
        data: Vec<u8>,
    },
    /// Any other event of the mesh.
    Other,
}

/// An event of one of the transport's three capabilities.
#[derive(Debug)]
pub enum ChatBehaviourEvent {
    /// An event of the broadcast mesh.
    Gossipsub(GossipsubEvent),
    /// An event of local discovery.
    Mdns(MdnsEvent),
    /// An event of the identification handshake.
    Identify(IdentifyEvent),
}

} // verus!
