//! What can go wrong, apart from a text that is no address.

use crate::sock::RecvMsg;
use vstd::prelude::*;

verus! {

/// The broad kind of an error, as callers tell errors apart.
#[derive(Clone, Copy, Debug, PartialEq, Eq, Hash, Structural)]
pub enum ErrorKind {
    /// The kernel refused a call.
    Os,
    /// There was no address to use.
    AddrNotAvailable,
    /// A subscription ran out.
    TimedOut,
    /// A read ended before its buffer was full.
    UnexpectedEof,
    /// Anything else.
    Other,
}

/// An error of the socket or topology layer.
#[derive(Clone, Copy, Debug, PartialEq, Eq)]
pub enum Error {
    /// The kernel refused a call, with this `errno`.
    Os(i32),
    /// An address resolved to nothing.
    AddrNotAvailable,
    /// An out-of-band message carried data.
    UnexpectedOob,
    /// A message came back undelivered, with this TIPC error code.
    Rejected(u32),
    /// A group event arrived where only data was expected.
    UnexpectedGroupEvent(RecvMsg),
    /// A read that had to fill its buffer got `size` bytes of `expected`.
    IncompleteRead { size: usize, expected: usize },
    /// A subscription was not sent whole.
    SubscribeFailed,
    /// The cancelling of a subscription was not sent whole.
    UnsubscribeFailed,
    /// An event was not received whole.
    ReceiveFailed,
    /// The subscription ran out and has been removed.
    TimedOut,
    /// An event with an unknown code.
    UnexpectedEvent(u32),
    /// A name that the kernel handed back is no UTF-8 text.
    InvalidName,
}

impl Error {
    /// The kind of the error.
    pub open spec fn spec_kind(&self) -> ErrorKind {
        match self {
            Error::Os(_) => ErrorKind::Os,
            Error::AddrNotAvailable => ErrorKind::AddrNotAvailable,
            Error::TimedOut => ErrorKind::TimedOut,
            Error::IncompleteRead { .. } => ErrorKind::UnexpectedEof,
            _ => ErrorKind::Other,
        }
    }

    /// The kind of the error.
    #[verifier::when_used_as_spec(spec_kind)]
    pub fn kind(&self) -> (r: ErrorKind)
        ensures
            r == self.spec_kind(),
    {
        match self {
            Error::Os(_) => ErrorKind::Os,
            Error::AddrNotAvailable => ErrorKind::AddrNotAvailable,
            Error::TimedOut => ErrorKind::TimedOut,
            Error::IncompleteRead { .. } => ErrorKind::UnexpectedEof,
            _ => ErrorKind::Other,
        }
    }
}

} // verus!
