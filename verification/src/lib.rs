//! TIPC, the cluster-wide messaging of Linux, as far as it can be decided
//! without touching a socket.
//!
//! Endpoints are named by services rather than by hosts and ports. This crate
//! holds the names ([`addr`]), the kernel's records ([`ffi`]), what a socket
//! hands to the kernel and how it reads what comes back ([`sock`]), the states
//! a socket goes through ([`state`]), and the topology service ([`topo`]).
//! It makes no system call: the caller makes the call and hands over what the
//! kernel returned.

pub mod addr;
pub mod error;
pub mod ffi;
pub mod native;
pub mod sock;
pub mod state;
pub mod text;
pub mod time;
pub mod topo;

pub use addr::{
    AddrParseError, Instance, NetworkAddr, NonZeroU32, Scope, ServiceAddr, ServiceRange,
    SocketAddr, ToInstanceRange, Type, Visibility,
};
pub use error::{Error, ErrorKind};
pub use sock::{
    bind, connect, connect_timeout, BearerId, ControlMessage, Importance, IntoResult, Join,
    Origin, Received, Recv, RecvMsg, Rejected, Send, SockOpt, Step, ToServiceAddrs,
    ToServiceRanges, ToSocketAddrs,
};
pub use state::{Kind, Op, State};
pub use text::{IntErrorKind, Radix};
pub use time::Duration;
