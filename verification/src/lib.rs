//! The core of a peer-to-peer chat node.
//!
//! A node finds its peers on the local network, admits those that speak its
//! protocol version, and exchanges messages with them over a broadcast mesh.
//! This crate holds what the node decides and remembers; it touches no
//! network. Whoever embeds it owns the transport, tells the node what
//! happened there and performs what the node asks for.
//!
//! * [`behaviour`]: the protocol version that a node announces, and the
//!   events of discovery, handshake and mesh.
//! * [`gate`]: which peers are admitted.
//! * [`dedup`]: how publications are told apart, and how payloads are framed.
//! * [`queue`]: the messages that arrived.
//! * [`transport`]: events, actions and failures that pass between the node
//!   and the transport.
//! * [`client`]: the chat actor, a state machine driven one event at a time.
//! * [`external`]: the table of handles through which a host written in
//!   another language holds its chat clients.
//! * [`client_lemmas`], [`external_lemmas`]: what holds of the actor and of
//!   the table in every state.

pub mod behaviour;
pub mod client;
pub mod client_lemmas;
mod clock;
pub mod decimal;
pub mod dedup;
pub mod external;
pub mod external_lemmas;
pub mod gate;
pub mod peer;
pub mod queue;
pub mod transport;

pub use behaviour::ChatBehaviourEvent;
pub use client::{ChatClient, ChatClientError};
pub use external::{
    libp2p_chat_free, libp2p_chat_new, libp2p_chat_publish, libp2p_chat_receive,
    libp2p_chat_start, libp2p_chat_stop,
};
