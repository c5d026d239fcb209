//! The states a socket goes through, and what each kind of socket may do in
//! each of them.
//!
//! ```text
//!  Builder ──bind──▶ Bound ──listen──▶ Listener ──accept──▶ Connected
//!        │                                                     ▲
//!        └──connect────────────────────────────────────────────┘
//! ```
//!
//! An operation that the table does not hold is refused before any call to
//! the kernel is made.

use vstd::prelude::*;

verus! {

/// The kinds of typed socket.
#[derive(Clone, Copy, Debug, PartialEq, Eq, Hash, Structural)]
pub enum Kind {
    /// A byte stream.
    Stream,
    /// Packets over a connection.
    SeqPacket,
    /// Datagrams, reliable or not.
    Datagram,
}

/// The states of a typed socket.
#[derive(Clone, Copy, Debug, PartialEq, Eq, Hash, Structural)]
pub enum State {
    /// Created, and still to be configured.
    Builder,
    /// Built, and neither bound nor connected.
    Open,
    /// Bound to at least one service range.
    Bound,
    /// Listening for connections.
    Listener,
    /// Connected to a peer.
    Connected,
    /// Member of a group.
    Group,
}

/// The operations on a typed socket.
#[derive(Clone, Copy, Debug, PartialEq, Eq, Hash, Structural)]
pub enum Op {
    /// Set an option: importance, connect timeout, blocking, receive buffer.
    Configure,
    /// Finish building.
    Build,
    /// Bind to a service range.
    Bind,
    /// Undo a binding.
    Unbind,
    /// Start to listen.
    Listen,
    /// Accept a connection.
    Accept,
    /// Connect to a service.
    Connect,
    /// Take as connected without a call to the kernel.
    IntoConnected,
    /// Join a group.
    Join,
    /// Leave the group.
    Leave,
    /// Send to the peer.
    Send,
    /// Receive from the peer.
    Recv,
    /// Send to an address.
    SendTo,
    /// Receive, and learn the sender.
    RecvFrom,
    /// End the connection in both directions.
    Shutdown,
    /// Send to every member of the group.
    Broadcast,
    /// Send to the members of the group bound within a range.
    Multicast,
    /// Send to one member of the group bound to a service.
    Anycast,
}

impl Kind {
    /// Every kind can be bound.
    pub open spec fn spec_is_bindable(self) -> bool {
        true
    }

    /// Streams and sequenced packets are connected; datagrams are not.
    pub open spec fn spec_is_connectable(self) -> bool {
        self is Stream || self is SeqPacket
    }

    /// Sequenced packets and datagrams are sent to addresses.
    pub open spec fn spec_is_addressed(self) -> bool {
        self is SeqPacket || self is Datagram
    }

    /// Whether a socket of the kind can be bound.
    #[verifier::when_used_as_spec(spec_is_bindable)]
    pub fn is_bindable(self) -> (r: bool)
        ensures
            r == self.spec_is_bindable(),
    {
        true
    }

    /// Whether a socket of the kind can connect, listen and accept.
    #[verifier::when_used_as_spec(spec_is_connectable)]
    pub fn is_connectable(self) -> (r: bool)
        ensures
            r == self.spec_is_connectable(),
    {
        match self {
            Kind::Stream => true,
            Kind::SeqPacket => true,
            Kind::Datagram => false,
        }
    }

    /// Whether a socket of the kind sends to addresses while it is not connected.
    #[verifier::when_used_as_spec(spec_is_addressed)]
    pub fn is_addressed(self) -> (r: bool)
        ensures
            r == self.spec_is_addressed(),
    {
        match self {
            Kind::Stream => false,
            Kind::SeqPacket => true,
            Kind::Datagram => true,
        }
    }
}

impl State {
    /// How far along the socket is.
    pub open spec fn rank(self) -> nat {
        match self {
            State::Builder => 0,
            State::Open => 1,
            State::Bound => 2,
            State::Listener => 3,
            State::Connected => 4,
            State::Group => 4,
        }
    }
}

/// The state of a socket of `kind` after `op`, where it is in `state` before;
/// `None` where the operation is not one of that kind in that state.
pub open spec fn spec_after(kind: Kind, state: State, op: Op) -> Option<State> {
    match (state, op) {
        (State::Builder, Op::Configure) => Some(State::Builder),
        (State::Builder, Op::Build) => Some(State::Open),
        (State::Builder, Op::Bind) => Some(State::Bound),
        (State::Builder, Op::Connect) => if kind.spec_is_connectable() {
            Some(State::Connected)
        } else {
            None
        },
        (State::Open, Op::Bind) => if kind is Datagram {
            Some(State::Bound)
        } else {
            None
        },
        (State::Open, Op::Connect) => if kind.spec_is_connectable() {
            Some(State::Connected)
        } else {
            None
        },
        (State::Open, Op::IntoConnected) => if kind.spec_is_addressed() {
            Some(State::Connected)
        } else {
            None
        },
        (State::Open, Op::Join) => if kind is Datagram {
            Some(State::Group)
        } else {
            None
        },
        (State::Open, Op::SendTo) | (State::Open, Op::RecvFrom) => if kind.spec_is_addressed() {
            Some(State::Open)
        } else {
            None
        },
        (State::Bound, Op::Bind) | (State::Bound, Op::Unbind) => Some(State::Bound),
        (State::Bound, Op::Listen) => if kind.spec_is_connectable() {
            Some(State::Listener)
        } else {
            None
        },
        (State::Bound, Op::SendTo) | (State::Bound, Op::RecvFrom) => if kind is Datagram {
            Some(State::Bound)
        } else {
            None
        },
        (State::Listener, Op::Accept) => if kind.spec_is_connectable() {
            Some(State::Listener)
        } else {
            None
        },
        (State::Connected, Op::Send) | (State::Connected, Op::Recv) => Some(State::Connected),
        (State::Connected, Op::Shutdown) => if kind.spec_is_connectable() {
            Some(State::Connected)
        } else {
            None
        },
        (State::Group, Op::Leave) => if kind is Datagram {
            Some(State::Open)
        } else {
            None
        },
        (State::Group, Op::Broadcast) | (State::Group, Op::Multicast) | (State::Group, Op::Anycast)
        | (State::Group, Op::SendTo) | (State::Group, Op::RecvFrom) => if kind is Datagram {
            Some(State::Group)
        } else {
            None
        },
        _ => None,
    }
}

/// The state of a socket of `kind` after `op`, where it is in `state` before;
/// `None` where the operation is to be refused.
#[verifier::when_used_as_spec(spec_after)]
pub fn after(kind: Kind, state: State, op: Op) -> (r: Option<State>)
    ensures
        r == spec_after(kind, state, op),
{
    let connectable = kind.is_connectable();
    let addressed = kind.is_addressed();
    let datagram = match kind {
        Kind::Datagram => true,
        _ => false,
    };
    match (state, op) {
        (State::Builder, Op::Configure) => Some(State::Builder),
        (State::Builder, Op::Build) => Some(State::Open),
        (State::Builder, Op::Bind) => Some(State::Bound),
        (State::Builder, Op::Connect) => if connectable {
            Some(State::Connected)
        } else {
            None
        },
        (State::Open, Op::Bind) => if datagram {
            Some(State::Bound)
        } else {
            None
        },
        (State::Open, Op::Connect) => if connectable {
            Some(State::Connected)
        } else {
            None
        },
        (State::Open, Op::IntoConnected) => if addressed {
            Some(State::Connected)
        } else {
            None
        },
        (State::Open, Op::Join) => if datagram {
            Some(State::Group)
        } else {
            None
        },
        (State::Open, Op::SendTo) | (State::Open, Op::RecvFrom) => if addressed {
            Some(State::Open)
        } else {
            None
        },
        (State::Bound, Op::Bind) | (State::Bound, Op::Unbind) => Some(State::Bound),
        (State::Bound, Op::Listen) => if connectable {
            Some(State::Listener)
        } else {
            None
        },
        (State::Bound, Op::SendTo) | (State::Bound, Op::RecvFrom) => if datagram {
            Some(State::Bound)
        } else {
            None
        },
        (State::Listener, Op::Accept) => if connectable {
            Some(State::Listener)
        } else {
            None
        },
        (State::Connected, Op::Send) | (State::Connected, Op::Recv) => Some(State::Connected),
        (State::Connected, Op::Shutdown) => if connectable {
            Some(State::Connected)
        } else {
            None
        },
        (State::Group, Op::Leave) => if datagram {
            Some(State::Open)
        } else {
            None
        },
        (State::Group, Op::Broadcast) | (State::Group, Op::Multicast) | (State::Group, Op::Anycast)
        | (State::Group, Op::SendTo) | (State::Group, Op::RecvFrom) => if datagram {
            Some(State::Group)
        } else {
            None
        },
        _ => None,
    }
}

/// The state in which a socket comes out of `accept` on a listener of `kind`.
pub fn accepted(kind: Kind) -> (r: Option<State>)
    ensures
        r == (if kind.spec_is_connectable() {
            Some(State::Connected)
        } else {
            None
        }),
{
    if kind.is_connectable() {
        Some(State::Connected)
    } else {
        None
    }
}

/// Binding and connecting a builder, and making a bound socket listen, each
/// take the socket further along: it is in another state afterwards, and no
/// operation leads from there back to the state it left. A builder, once
/// left, is never come back to from anywhere; a listener stays a listener,
/// and a connected socket stays connected.
pub proof fn lemma_state_monotonic(kind: Kind, state: State, op: Op, later: Op)
    ensures
        spec_after(kind, State::Builder, Op::Bind) == Some(State::Bound),
        kind.spec_is_connectable() ==> spec_after(kind, State::Builder, Op::Connect) == Some(
            State::Connected,
        ),
        kind.spec_is_connectable() ==> spec_after(kind, State::Bound, Op::Listen) == Some(
            State::Listener,
        ),
        kind.spec_is_connectable() ==> spec_after(kind, State::Listener, Op::Accept) == Some(
            State::Listener,
        ),
        ((state is Builder && (op is Bind || op is Connect)) || (state is Bound && op is Listen))
            && spec_after(kind, state, op) is Some ==> {
            let next = spec_after(kind, state, op)->Some_0;
            next.rank() > state.rank() && spec_after(kind, next, later) != Some(state)
        },
        spec_after(kind, state, op) == Some(State::Builder) ==> state is Builder && op is Configure,
        spec_after(kind, State::Listener, op) is Some ==> op is Accept && spec_after(
            kind,
            State::Listener,
            op,
        ) == Some(State::Listener),
        spec_after(kind, State::Connected, op) is Some ==> spec_after(kind, State::Connected, op)
            == Some(State::Connected),
{
}

/// What needs a connection is open to streams and sequenced packets alone,
/// and groups to datagrams alone.
pub proof fn lemma_capabilities(kind: Kind, state: State, op: Op)
    ensures
        (op is Connect || op is Listen || op is Accept || op is Shutdown) && spec_after(
            kind,
            state,
            op,
        ) is Some ==> kind.spec_is_connectable(),
        (op is Join || op is Leave || op is Broadcast || op is Multicast || op is Anycast)
            && spec_after(kind, state, op) is Some ==> kind is Datagram,
{
}

} // verus!
