//! A QUIC binding for RunenNet delivery flows, with its decisions proved.
//!
//! The crate holds what a connection decides and computes: the wire codecs, the
//! bootstrap of a profile, negotiation, flow control, datagrams, what a failure comes to,
//! and the driver that orders them. Sockets, streams and timers stay with the host, and so
//! do the delivery core and the negotiation manager: the host hands in plain values, is
//! told what to do, and hands the outcome back.

pub mod connection_driver;
pub mod control;
pub mod datagram;
pub mod datagram_driver;
pub mod delivery;
pub mod endpoint;
pub mod facade;
pub mod flow_control;
pub mod flow_driver;
pub mod lifecycle;
pub mod negotiation;
pub mod negotiation_codec;
pub mod protocol;
pub mod registry;
pub mod reliable;
pub mod storage;
pub mod varint;
pub mod wire;

pub use facade::{
    ClientEndpoint, ClientTrust, EndpointBindError, EndpointConfig, EndpointResourceError,
    EndpointResourceLimits, NonZeroSize, ProfileBootstrapFailure, ProfileConfig,
    ProfileConfigError, ProfileConnectionError, ProfileConnectionErrorKind, ProfileLimits,
    ProfileReadyConnection, ReliableReceiveLimits, SemanticRole, ServerEndpoint, ServerIdentity,
    TlsMaterialError,
};
