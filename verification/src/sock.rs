//! What a socket decides: the record to hand to the kernel before a call, and
//! the reading of what the kernel handed back after it.

use crate::addr::{
    Instance, Scope, ServiceAddr, ServiceRange, SocketAddr, ToInstanceRange, Type, Visibility,
    TIPC_ADDR_MCAST,
};
use crate::error::Error;
use crate::ffi::{
    sockaddr_tipc, tipc_group_req, tipc_name, tipc_name_seq, MSG_EOR, MSG_OOB, SOL_TIPC,
    TIPC_CONN_TIMEOUT, TIPC_DESTNAME, TIPC_DEST_DROPPABLE, TIPC_ERRINFO, TIPC_GROUP_JOIN,
    TIPC_GROUP_LEAVE, TIPC_IMPORTANCE, TIPC_RETDATA,
};
use crate::native::{ne_value, read_u32};
use crate::text::{before, into_string, split_once};
use crate::time::Duration;
use vstd::prelude::*;
use vstd::utf8::{decode_utf8, valid_utf8};

verus! {

/// The bearer identity.
pub type BearerId = u32;

/// How important the messages of a socket are; the kernel sheds the less
/// important first when it is congested.
#[derive(Clone, Copy, Debug, PartialEq, Eq, Hash, Structural)]
pub enum Importance {
    Low,
    Medium,
    High,
    Critical,
}

impl Importance {
    /// The number the kernel knows the level by.
    pub open spec fn value(self) -> u32 {
        match self {
            Importance::Low => 0,
            Importance::Medium => 1,
            Importance::High => 2,
            Importance::Critical => 3,
        }
    }

    /// The number the kernel knows the level by.
    pub fn as_u32(self) -> (r: u32)
        ensures
            r == self.value(),
    {
        match self {
            Importance::Low => 0,
            Importance::Medium => 1,
            Importance::High => 2,
            Importance::Critical => 3,
        }
    }

    /// The level that the kernel knows by `value`, if it is one.
    pub fn from_u32(value: u32) -> (r: Option<Importance>)
        ensures
            value > 3 <==> r is None,
            r matches Some(level) ==> level.value() == value,
    {
        match value {
            0 => Some(Importance::Low),
            1 => Some(Importance::Medium),
            2 => Some(Importance::High),
            3 => Some(Importance::Critical),
            _ => None,
        }
    }
}

/// Flags for joining a group.
#[derive(Clone, Copy, Debug, PartialEq, Eq, Hash, Structural)]
pub struct Join(u32);

impl View for Join {
    type V = u32;

    /// The bits of the flags that are set.
    closed spec fn view(&self) -> u32 {
        self.0
    }
}

impl Join {
    /// No bit is set that is not a flag.
    #[verifier::type_invariant]
    pub closed spec fn wf(self) -> bool {
        self.0 & !3u32 == 0
    }

    /// Two sets of flags with the same bits are the same.
    pub proof fn lemma_same(a: Join, b: Join)
        requires
            a@ == b@,
        ensures
            a == b,
    {
    }

    /// No flag.
    pub fn empty() -> (r: Self)
        ensures
            r@ == 0,
    {
        proof {
            assert(0u32 & !3u32 == 0) by (bit_vector);
        }
        Join(0)
    }

    /// Every flag.
    pub fn all() -> (r: Self)
        ensures
            r@ == 3,
    {
        proof {
            assert(3u32 & !3u32 == 0) by (bit_vector);
        }
        Join(3)
    }

    /// The bits of the flags that are set.
    pub fn bits(&self) -> (r: u32)
        ensures
            r == self@,
            r & !3u32 == 0,
    {
        proof {
            use_type_invariant(self);
        }
        self.0
    }

    /// The flags with these bits, unless a bit among them is no flag.
    pub fn from_bits(bits: u32) -> (r: Option<Self>)
        ensures
            r is Some <==> bits & !3u32 == 0,
            r matches Some(flags) ==> flags@ == bits,
    {
        if bits & !3 == 0 {
            Some(Join(bits))
        } else {
            None
        }
    }

    /// The flags among these bits; bits that are no flag are dropped.
    pub fn from_bits_truncate(bits: u32) -> (r: Self)
        ensures
            r@ == bits & 3,
    {
        proof {
            assert((bits & 3u32) & !3u32 == 0) by (bit_vector);
        }
        Join(bits & 3)
    }

    /// Whether no flag is set.
    pub fn is_empty(&self) -> (r: bool)
        ensures
            r == (self@ == 0),
    {
        self.0 == 0
    }

    /// Whether every flag of `other` is set.
    pub fn contains(&self, other: Self) -> (r: bool)
        ensures
            r == (self@ & other@ == other@),
    {
        self.0 & other.0 == other.0
    }

    /// The flags of both.
    pub fn union(self, other: Self) -> (r: Self)
        ensures
            r@ == self@ | other@,
    {
        let a = self.0;
        let b = other.0;
        proof {
            use_type_invariant(self);
            use_type_invariant(other);
            assert(a & !3u32 == 0 && b & !3u32 == 0 ==> (a | b) & !3u32 == 0)
                by (bit_vector);
        }
        Join(a | b)
    }

    /// Receive a copy of what the member itself sends, where it matches.
    pub fn loopback() -> (r: Self)
        ensures
            r@ == 1,
    {
        proof {
            assert(1u32 & !3u32 == 0) by (bit_vector);
        }
        Join(1)
    }

    /// Receive membership events in the socket.
    pub fn member_evts() -> (r: Self)
        ensures
            r@ == 2,
    {
        proof {
            assert(2u32 & !3u32 == 0) by (bit_vector);
        }
        Join(2)
    }
}

/// Flags for receiving.
#[derive(Clone, Copy, Debug, PartialEq, Eq, Hash, Structural)]
pub struct Recv(i32);

impl View for Recv {
    type V = i32;

    /// The bits of the flags that are set.
    closed spec fn view(&self) -> i32 {
        self.0
    }
}

impl Recv {
    /// No bit is set that is not a flag.
    #[verifier::type_invariant]
    pub closed spec fn wf(self) -> bool {
        self.0 & !322i32 == 0
    }

    /// Two sets of flags with the same bits are the same.
    pub proof fn lemma_same(a: Recv, b: Recv)
        requires
            a@ == b@,
        ensures
            a == b,
    {
    }

    /// No flag.
    pub fn empty() -> (r: Self)
        ensures
            r@ == 0,
    {
        proof {
            assert(0i32 & !322i32 == 0) by (bit_vector);
        }
        Recv(0)
    }

    /// Every flag.
    pub fn all() -> (r: Self)
        ensures
            r@ == 322,
    {
        proof {
            assert(322i32 & !322i32 == 0) by (bit_vector);
        }
        Recv(322)
    }

    /// The bits of the flags that are set.
    pub fn bits(&self) -> (r: i32)
        ensures
            r == self@,
            r & !322i32 == 0,
    {
        proof {
            use_type_invariant(self);
        }
        self.0
    }

    /// The flags with these bits, unless a bit among them is no flag.
    pub fn from_bits(bits: i32) -> (r: Option<Self>)
        ensures
            r is Some <==> bits & !322i32 == 0,
            r matches Some(flags) ==> flags@ == bits,
    {
        if bits & !322 == 0 {
            Some(Recv(bits))
        } else {
            None
        }
    }

    /// The flags among these bits; bits that are no flag are dropped.
    pub fn from_bits_truncate(bits: i32) -> (r: Self)
        ensures
            r@ == bits & 322,
    {
        proof {
            assert((bits & 322i32) & !322i32 == 0) by (bit_vector);
        }
        Recv(bits & 322)
    }

    /// Whether no flag is set.
    pub fn is_empty(&self) -> (r: bool)
        ensures
            r == (self@ == 0),
    {
        self.0 == 0
    }

    /// Whether every flag of `other` is set.
    pub fn contains(&self, other: Self) -> (r: bool)
        ensures
            r == (self@ & other@ == other@),
    {
        self.0 & other.0 == other.0
    }

    /// The flags of both.
    pub fn union(self, other: Self) -> (r: Self)
        ensures
            r@ == self@ | other@,
    {
        let a = self.0;
        let b = other.0;
        proof {
            use_type_invariant(self);
            use_type_invariant(other);
            assert(a & !322i32 == 0 && b & !322i32 == 0 ==> (a | b) & !322i32 == 0)
                by (bit_vector);
        }
        Recv(a | b)
    }

    /// Hand the data out and leave it in the queue, so that the next receive hands out the same.
    pub fn peek() -> (r: Self)
        ensures
            r@ == 2,
    {
        proof {
            assert(2i32 & !322i32 == 0) by (bit_vector);
        }
        Recv(2)
    }

    /// Block until the whole request is satisfied. Has no effect on datagram sockets.
    pub fn wait_all() -> (r: Self)
        ensures
            r@ == 256,
    {
        proof {
            assert(256i32 & !322i32 == 0) by (bit_vector);
        }
        Recv(256)
    }

    /// Fail with `EAGAIN` where the call would block.
    pub fn dont_wait() -> (r: Self)
        ensures
            r@ == 64,
    {
        proof {
            assert(64i32 & !322i32 == 0) by (bit_vector);
        }
        Recv(64)
    }
}

/// Flags for sending.
#[derive(Clone, Copy, Debug, PartialEq, Eq, Hash, Structural)]
pub struct Send(i32);

impl View for Send {
    type V = i32;

    /// The bits of the flags that are set.
    closed spec fn view(&self) -> i32 {
        self.0
    }
}

impl Send {
    /// No bit is set that is not a flag.
    #[verifier::type_invariant]
    pub closed spec fn wf(self) -> bool {
        self.0 & !64i32 == 0
    }

    /// Two sets of flags with the same bits are the same.
    pub proof fn lemma_same(a: Send, b: Send)
        requires
            a@ == b@,
        ensures
            a == b,
    {
    }

    /// No flag.
    pub fn empty() -> (r: Self)
        ensures
            r@ == 0,
    {
        proof {
            assert(0i32 & !64i32 == 0) by (bit_vector);
        }
        Send(0)
    }

    /// Every flag.
    pub fn all() -> (r: Self)
        ensures
            r@ == 64,
    {
        proof {
            assert(64i32 & !64i32 == 0) by (bit_vector);
        }
        Send(64)
    }

    /// The bits of the flags that are set.
    pub fn bits(&self) -> (r: i32)
        ensures
            r == self@,
            r & !64i32 == 0,
    {
        proof {
            use_type_invariant(self);
        }
        self.0
    }

    /// The flags with these bits, unless a bit among them is no flag.
    pub fn from_bits(bits: i32) -> (r: Option<Self>)
        ensures
            r is Some <==> bits & !64i32 == 0,
            r matches Some(flags) ==> flags@ == bits,
    {
        if bits & !64 == 0 {
            Some(Send(bits))
        } else {
            None
        }
    }

    /// The flags among these bits; bits that are no flag are dropped.
    pub fn from_bits_truncate(bits: i32) -> (r: Self)
        ensures
            r@ == bits & 64,
    {
        proof {
            assert((bits & 64i32) & !64i32 == 0) by (bit_vector);
        }
        Send(bits & 64)
    }

    /// Whether no flag is set.
    pub fn is_empty(&self) -> (r: bool)
        ensures
            r == (self@ == 0),
    {
        self.0 == 0
    }

    /// Whether every flag of `other` is set.
    pub fn contains(&self, other: Self) -> (r: bool)
        ensures
            r == (self@ & other@ == other@),
    {
        self.0 & other.0 == other.0
    }

    /// The flags of both.
    pub fn union(self, other: Self) -> (r: Self)
        ensures
            r@ == self@ | other@,
    {
        let a = self.0;
        let b = other.0;
        proof {
            use_type_invariant(self);
            use_type_invariant(other);
            assert(a & !64i32 == 0 && b & !64i32 == 0 ==> (a | b) & !64i32 == 0)
                by (bit_vector);
        }
        Send(a | b)
    }

    /// Fail with `EAGAIN` where the call would block.
    pub fn dont_wait() -> (r: Self)
        ensures
            r@ == 64,
    {
        proof {
            assert(64i32 & !64i32 == 0) by (bit_vector);
        }
        Send(64)
    }
}

/// A message was rejected: the TIPC error code that came back with it.
#[derive(Clone, Copy, Debug, PartialEq, Eq, Hash, Structural)]
pub struct Rejected(pub u32);

/// What one receive delivers.
#[derive(Clone, Copy, Debug, PartialEq, Eq)]
pub enum RecvMsg {
    /// A member joined the group.
    MemberJoin(ServiceAddr),
    /// A member left the group.
    MemberLeave(ServiceAddr),
    /// Data: its length, and the service range it was sent to, where known.
    Message { len: usize, service: Option<ServiceRange> },
    /// A message of this socket that came back undelivered: the error code,
    /// and the service range it had been sent to, where known.
    Rejected { err: u32, service: Option<ServiceRange> },
}

/// `r` is what resolving came to, where `to` says what it comes to.
pub open spec fn resolved<T>(r: Result<Vec<T>, Error>, to: Result<Seq<T>, Error>) -> bool {
    match r {
        Ok(v) => to == Ok::<Seq<T>, Error>(v@),
        Err(e) => to == Err::<Seq<T>, Error>(e),
    }
}

/// What stands for one or more service ranges to bind, each with the
/// visibility to bind it with.
pub trait ToServiceRanges {
    /// The ranges, in the order in which they are bound.
    spec fn service_ranges(&self) -> Result<Seq<(ServiceRange, Visibility)>, Error>;

    /// Resolves to the ranges.
    fn to_service_ranges(&self) -> (r: Result<Vec<(ServiceRange, Visibility)>, Error>)
        ensures
            resolved(r, self.service_ranges()),
    ;
}

/// What stands for one or more services to connect to or to join, each with
/// the scope to look it up in.
pub trait ToServiceAddrs {
    /// The services, in the order in which they are tried.
    spec fn service_addrs(&self) -> Result<Seq<(ServiceAddr, Scope)>, Error>;

    /// Resolves to the services.
    fn to_service_addrs(&self) -> (r: Result<Vec<(ServiceAddr, Scope)>, Error>)
        ensures
            resolved(r, self.service_addrs()),
    ;
}

/// What stands for one or more kernel addresses to send to.
pub trait ToSocketAddrs {
    /// The addresses; a send goes to the first.
    spec fn socket_addrs(&self) -> Result<Seq<sockaddr_tipc>, Error>;

    /// Resolves to the addresses.
    fn to_socket_addrs(&self) -> (r: Result<Vec<sockaddr_tipc>, Error>)
        ensures
            resolved(r, self.socket_addrs()),
    ;
}

/// A range is bound as it stands, seen in the cluster.
impl ToServiceRanges for ServiceRange {
    open spec fn service_ranges(&self) -> Result<Seq<(ServiceRange, Visibility)>, Error> {
        Ok(seq![(*self, Visibility::Cluster)])
    }

    fn to_service_ranges(&self) -> (r: Result<Vec<(ServiceRange, Visibility)>, Error>) {
        let mut v: Vec<(ServiceRange, Visibility)> = Vec::new();
        v.push((*self, Visibility::Cluster));
        proof {
            assert(v@ =~= seq![(*self, Visibility::Cluster)]);
        }
        Ok(v)
    }
}

/// A service is bound as the range of its one instance, seen in the cluster.
impl ToServiceRanges for ServiceAddr {
    open spec fn service_ranges(&self) -> Result<Seq<(ServiceRange, Visibility)>, Error> {
        Ok(seq![(ServiceRange::spec_new(self.0.type_, self.0.instance, self.0.instance), Visibility::Cluster)])
    }

    fn to_service_ranges(&self) -> (r: Result<Vec<(ServiceRange, Visibility)>, Error>) {
        let mut v: Vec<(ServiceRange, Visibility)> = Vec::new();
        v.push((ServiceRange::new(self.0.type_, self.0.instance, self.0.instance), Visibility::Cluster));
        proof {
            assert(v@ =~= seq![(ServiceRange::spec_new(self.0.type_, self.0.instance, self.0.instance), Visibility::Cluster)]);
        }
        Ok(v)
    }
}

/// A bare type is bound with every instance, seen in the cluster.
impl ToServiceRanges for Type {
    open spec fn service_ranges(&self) -> Result<Seq<(ServiceRange, Visibility)>, Error> {
        Ok(seq![(ServiceRange::spec_new(*self, 0, u32::MAX), Visibility::Cluster)])
    }

    fn to_service_ranges(&self) -> (r: Result<Vec<(ServiceRange, Visibility)>, Error>) {
        let mut v: Vec<(ServiceRange, Visibility)> = Vec::new();
        v.push((ServiceRange::with_type(*self), Visibility::Cluster));
        proof {
            assert(v@ =~= seq![(ServiceRange::spec_new(*self, 0, u32::MAX), Visibility::Cluster)]);
        }
        Ok(v)
    }
}

/// A type with instances is bound as the range of these, seen in the cluster.
impl<T: ToInstanceRange> ToServiceRanges for (Type, T) {
    open spec fn service_ranges(&self) -> Result<Seq<(ServiceRange, Visibility)>, Error> {
        Ok(seq![(ServiceRange::spec_new(self.0, self.1.spec_lower(), self.1.spec_upper()), Visibility::Cluster)])
    }

    fn to_service_ranges(&self) -> (r: Result<Vec<(ServiceRange, Visibility)>, Error>) {
        let mut v: Vec<(ServiceRange, Visibility)> = Vec::new();
        v.push((ServiceRange::new(self.0, self.1.lower(), self.1.upper()), Visibility::Cluster));
        proof {
            assert(v@ =~= seq![(ServiceRange::spec_new(self.0, self.1.spec_lower(), self.1.spec_upper()), Visibility::Cluster)]);
        }
        Ok(v)
    }
}

/// A range with a visibility is bound with that visibility.
impl ToServiceRanges for (ServiceRange, Visibility) {
    open spec fn service_ranges(&self) -> Result<Seq<(ServiceRange, Visibility)>, Error> {
        Ok(seq![(self.0, self.1)])
    }

    fn to_service_ranges(&self) -> (r: Result<Vec<(ServiceRange, Visibility)>, Error>) {
        let mut v: Vec<(ServiceRange, Visibility)> = Vec::new();
        v.push((self.0, self.1));
        proof {
            assert(v@ =~= seq![(self.0, self.1)]);
        }
        Ok(v)
    }
}

/// A service with a visibility is bound as the range of its one instance, with that visibility.
impl ToServiceRanges for (ServiceAddr, Visibility) {
    open spec fn service_ranges(&self) -> Result<Seq<(ServiceRange, Visibility)>, Error> {
        Ok(seq![(ServiceRange::spec_new(self.0.0.type_, self.0.0.instance, self.0.0.instance), self.1)])
    }

    fn to_service_ranges(&self) -> (r: Result<Vec<(ServiceRange, Visibility)>, Error>) {
        let mut v: Vec<(ServiceRange, Visibility)> = Vec::new();
        v.push((ServiceRange::new(self.0.0.type_, self.0.0.instance, self.0.0.instance), self.1));
        proof {
            assert(v@ =~= seq![(ServiceRange::spec_new(self.0.0.type_, self.0.0.instance, self.0.0.instance), self.1)]);
        }
        Ok(v)
    }
}

/// A bare type with a visibility is bound with every instance, with that visibility.
impl ToServiceRanges for (Type, Visibility) {
    open spec fn service_ranges(&self) -> Result<Seq<(ServiceRange, Visibility)>, Error> {
        Ok(seq![(ServiceRange::spec_new(self.0, 0, u32::MAX), self.1)])
    }

    fn to_service_ranges(&self) -> (r: Result<Vec<(ServiceRange, Visibility)>, Error>) {
        let mut v: Vec<(ServiceRange, Visibility)> = Vec::new();
        v.push((ServiceRange::with_type(self.0), self.1));
        proof {
            assert(v@ =~= seq![(ServiceRange::spec_new(self.0, 0, u32::MAX), self.1)]);
        }
        Ok(v)
    }
}

/// A type with a lower and an upper instance is bound as that range, seen in the cluster.
impl ToServiceRanges for (Type, Instance, Instance) {
    open spec fn service_ranges(&self) -> Result<Seq<(ServiceRange, Visibility)>, Error> {
        Ok(seq![(ServiceRange::spec_new(self.0, self.1, self.2), Visibility::Cluster)])
    }

    fn to_service_ranges(&self) -> (r: Result<Vec<(ServiceRange, Visibility)>, Error>) {
        let mut v: Vec<(ServiceRange, Visibility)> = Vec::new();
        v.push((ServiceRange::new(self.0, self.1, self.2), Visibility::Cluster));
        proof {
            assert(v@ =~= seq![(ServiceRange::spec_new(self.0, self.1, self.2), Visibility::Cluster)]);
        }
        Ok(v)
    }
}

/// A range as the kernel holds it is bound as it stands, seen in the cluster.
impl ToServiceRanges for tipc_name_seq {
    open spec fn service_ranges(&self) -> Result<Seq<(ServiceRange, Visibility)>, Error> {
        Ok(seq![(ServiceRange(*self), Visibility::Cluster)])
    }

    fn to_service_ranges(&self) -> (r: Result<Vec<(ServiceRange, Visibility)>, Error>) {
        let mut v: Vec<(ServiceRange, Visibility)> = Vec::new();
        v.push((ServiceRange(*self), Visibility::Cluster));
        proof {
            assert(v@ =~= seq![(ServiceRange(*self), Visibility::Cluster)]);
        }
        Ok(v)
    }
}

/// A type with instances and a visibility is bound as the range of these, with that visibility.
impl<T: ToInstanceRange> ToServiceRanges for ((Type, T), Visibility) {
    open spec fn service_ranges(&self) -> Result<Seq<(ServiceRange, Visibility)>, Error> {
        Ok(seq![(ServiceRange::spec_new(self.0.0, self.0.1.spec_lower(), self.0.1.spec_upper()), self.1)])
    }

    fn to_service_ranges(&self) -> (r: Result<Vec<(ServiceRange, Visibility)>, Error>) {
        let mut v: Vec<(ServiceRange, Visibility)> = Vec::new();
        v.push((ServiceRange::new(self.0.0, self.0.1.lower(), self.0.1.upper()), self.1));
        proof {
            assert(v@ =~= seq![(ServiceRange::spec_new(self.0.0, self.0.1.spec_lower(), self.0.1.spec_upper()), self.1)]);
        }
        Ok(v)
    }
}

/// A type with a lower and an upper instance and a visibility is bound as that range, with that visibility.
impl ToServiceRanges for ((Type, Instance, Instance), Visibility) {
    open spec fn service_ranges(&self) -> Result<Seq<(ServiceRange, Visibility)>, Error> {
        Ok(seq![(ServiceRange::spec_new(self.0.0, self.0.1, self.0.2), self.1)])
    }

    fn to_service_ranges(&self) -> (r: Result<Vec<(ServiceRange, Visibility)>, Error>) {
        let mut v: Vec<(ServiceRange, Visibility)> = Vec::new();
        v.push((ServiceRange::new(self.0.0, self.0.1, self.0.2), self.1));
        proof {
            assert(v@ =~= seq![(ServiceRange::spec_new(self.0.0, self.0.1, self.0.2), self.1)]);
        }
        Ok(v)
    }
}

/// A range as the kernel holds it, with a visibility, is bound with that visibility.
impl ToServiceRanges for (tipc_name_seq, Visibility) {
    open spec fn service_ranges(&self) -> Result<Seq<(ServiceRange, Visibility)>, Error> {
        Ok(seq![(ServiceRange(self.0), self.1)])
    }

    fn to_service_ranges(&self) -> (r: Result<Vec<(ServiceRange, Visibility)>, Error>) {
        let mut v: Vec<(ServiceRange, Visibility)> = Vec::new();
        v.push((ServiceRange(self.0), self.1));
        proof {
            assert(v@ =~= seq![(ServiceRange(self.0), self.1)]);
        }
        Ok(v)
    }
}

/// A list of ranges is bound range by range, in its order.
impl ToServiceRanges for Vec<(ServiceRange, Visibility)> {
    open spec fn service_ranges(&self) -> Result<Seq<(ServiceRange, Visibility)>, Error> {
        Ok(self@)
    }

    fn to_service_ranges(&self) -> (r: Result<Vec<(ServiceRange, Visibility)>, Error>) {
        let mut v: Vec<(ServiceRange, Visibility)> = Vec::new();
        let mut i: usize = 0;
        while i < self.len()
            invariant
                i <= self.len(),
                v@ == self@.subrange(0, i as int),
            decreases self.len() - i,
        {
            v.push(self[i]);
            i = i + 1;
            proof {
                assert(v@ =~= self@.subrange(0, i as int));
            }
        }
        proof {
            assert(v@ =~= self@);
        }
        Ok(v)
    }
}

/// A service is looked up in the whole cluster.
impl ToServiceAddrs for ServiceAddr {
    open spec fn service_addrs(&self) -> Result<Seq<(ServiceAddr, Scope)>, Error> {
        Ok(seq![(*self, Scope::Global)])
    }

    fn to_service_addrs(&self) -> (r: Result<Vec<(ServiceAddr, Scope)>, Error>) {
        let mut v: Vec<(ServiceAddr, Scope)> = Vec::new();
        v.push((*self, Scope::Global));
        proof {
            assert(v@ =~= seq![(*self, Scope::Global)]);
        }
        Ok(v)
    }
}

/// A service with a scope is looked up in that scope.
impl ToServiceAddrs for (ServiceAddr, Scope) {
    open spec fn service_addrs(&self) -> Result<Seq<(ServiceAddr, Scope)>, Error> {
        Ok(seq![(self.0, self.1)])
    }

    fn to_service_addrs(&self) -> (r: Result<Vec<(ServiceAddr, Scope)>, Error>) {
        let mut v: Vec<(ServiceAddr, Scope)> = Vec::new();
        v.push((self.0, self.1));
        proof {
            assert(v@ =~= seq![(self.0, self.1)]);
        }
        Ok(v)
    }
}

/// A type and an instance are the service of that type and instance.
impl ToServiceAddrs for (Type, Instance) {
    open spec fn service_addrs(&self) -> Result<Seq<(ServiceAddr, Scope)>, Error> {
        Ok(seq![(ServiceAddr::spec_new(self.0, self.1), Scope::Global)])
    }

    fn to_service_addrs(&self) -> (r: Result<Vec<(ServiceAddr, Scope)>, Error>) {
        let mut v: Vec<(ServiceAddr, Scope)> = Vec::new();
        v.push((ServiceAddr::new(self.0, self.1), Scope::Global));
        proof {
            assert(v@ =~= seq![(ServiceAddr::spec_new(self.0, self.1), Scope::Global)]);
        }
        Ok(v)
    }
}

/// A type and an instance with a scope are that service, looked up in that scope.
impl ToServiceAddrs for ((Type, Instance), Scope) {
    open spec fn service_addrs(&self) -> Result<Seq<(ServiceAddr, Scope)>, Error> {
        Ok(seq![(ServiceAddr::spec_new(self.0.0, self.0.1), self.1)])
    }

    fn to_service_addrs(&self) -> (r: Result<Vec<(ServiceAddr, Scope)>, Error>) {
        let mut v: Vec<(ServiceAddr, Scope)> = Vec::new();
        v.push((ServiceAddr::new(self.0.0, self.0.1), self.1));
        proof {
            assert(v@ =~= seq![(ServiceAddr::spec_new(self.0.0, self.0.1), self.1)]);
        }
        Ok(v)
    }
}

/// A service as the kernel holds it is looked up in the whole cluster.
impl ToServiceAddrs for tipc_name {
    open spec fn service_addrs(&self) -> Result<Seq<(ServiceAddr, Scope)>, Error> {
        Ok(seq![(ServiceAddr(*self), Scope::Global)])
    }

    fn to_service_addrs(&self) -> (r: Result<Vec<(ServiceAddr, Scope)>, Error>) {
        let mut v: Vec<(ServiceAddr, Scope)> = Vec::new();
        v.push((ServiceAddr(*self), Scope::Global));
        proof {
            assert(v@ =~= seq![(ServiceAddr(*self), Scope::Global)]);
        }
        Ok(v)
    }
}

/// A service as the kernel holds it, with a scope, is looked up in that scope.
impl ToServiceAddrs for (tipc_name, Scope) {
    open spec fn service_addrs(&self) -> Result<Seq<(ServiceAddr, Scope)>, Error> {
        Ok(seq![(ServiceAddr(self.0), self.1)])
    }

    fn to_service_addrs(&self) -> (r: Result<Vec<(ServiceAddr, Scope)>, Error>) {
        let mut v: Vec<(ServiceAddr, Scope)> = Vec::new();
        v.push((ServiceAddr(self.0), self.1));
        proof {
            assert(v@ =~= seq![(ServiceAddr(self.0), self.1)]);
        }
        Ok(v)
    }
}

/// To a socket: a unicast to that socket.
impl ToSocketAddrs for SocketAddr {
    open spec fn socket_addrs(&self) -> Result<Seq<sockaddr_tipc>, Error> {
        Ok(seq![self.sockaddr()])
    }

    fn to_socket_addrs(&self) -> (r: Result<Vec<sockaddr_tipc>, Error>) {
        let mut v: Vec<sockaddr_tipc> = Vec::new();
        v.push(sockaddr_tipc::from(*self));
        proof {
            assert(v@ =~= seq![self.sockaddr()]);
        }
        Ok(v)
    }
}

/// To a service: an anycast to one socket bound to it, anywhere in the cluster.
impl ToSocketAddrs for ServiceAddr {
    open spec fn socket_addrs(&self) -> Result<Seq<sockaddr_tipc>, Error> {
        Ok(seq![self.sockaddr(Scope::Global)])
    }

    fn to_socket_addrs(&self) -> (r: Result<Vec<sockaddr_tipc>, Error>) {
        let mut v: Vec<sockaddr_tipc> = Vec::new();
        v.push(sockaddr_tipc::from(*self));
        proof {
            assert(v@ =~= seq![self.sockaddr(Scope::Global)]);
        }
        Ok(v)
    }
}

/// To a service in a scope: an anycast to one socket bound to it in that scope.
impl ToSocketAddrs for (ServiceAddr, Scope) {
    open spec fn socket_addrs(&self) -> Result<Seq<sockaddr_tipc>, Error> {
        Ok(seq![self.0.sockaddr(self.1)])
    }

    fn to_socket_addrs(&self) -> (r: Result<Vec<sockaddr_tipc>, Error>) {
        let mut v: Vec<sockaddr_tipc> = Vec::new();
        v.push(sockaddr_tipc::from(*self));
        proof {
            assert(v@ =~= seq![self.0.sockaddr(self.1)]);
        }
        Ok(v)
    }
}

/// To a range: a multicast to every socket bound within it.
impl ToSocketAddrs for ServiceRange {
    open spec fn socket_addrs(&self) -> Result<Seq<sockaddr_tipc>, Error> {
        Ok(seq![self.sockaddr(Visibility::Cluster)])
    }

    fn to_socket_addrs(&self) -> (r: Result<Vec<sockaddr_tipc>, Error>) {
        let mut v: Vec<sockaddr_tipc> = Vec::new();
        v.push(sockaddr_tipc::from(*self));
        proof {
            assert(v@ =~= seq![self.sockaddr(Visibility::Cluster)]);
        }
        Ok(v)
    }
}

/// To a range with a visibility: a multicast to every socket bound within it.
impl ToSocketAddrs for (ServiceRange, Visibility) {
    open spec fn socket_addrs(&self) -> Result<Seq<sockaddr_tipc>, Error> {
        Ok(seq![self.0.sockaddr(self.1)])
    }

    fn to_socket_addrs(&self) -> (r: Result<Vec<sockaddr_tipc>, Error>) {
        let mut v: Vec<sockaddr_tipc> = Vec::new();
        v.push(sockaddr_tipc::from(*self));
        proof {
            assert(v@ =~= seq![self.0.sockaddr(self.1)]);
        }
        Ok(v)
    }
}

/// A kernel address stands for itself.
impl ToSocketAddrs for sockaddr_tipc {
    open spec fn socket_addrs(&self) -> Result<Seq<sockaddr_tipc>, Error> {
        Ok(seq![*self])
    }

    fn to_socket_addrs(&self) -> (r: Result<Vec<sockaddr_tipc>, Error>) {
        let mut v: Vec<sockaddr_tipc> = Vec::new();
        v.push(*self);
        proof {
            assert(v@ =~= seq![*self]);
        }
        Ok(v)
    }
}

/// A socket option with the value to set it to.
#[derive(Clone, Copy, Debug, PartialEq, Eq)]
pub struct SockOpt<T> {
    /// The level the option lives at.
    pub level: i32,
    /// The option.
    pub opt: u32,
    /// The value.
    pub val: T,
}

/// `libc::O_NONBLOCK`: the descriptor flag for non-blocking mode. Which
/// number it is differs from target to target; on none of them is it zero.
#[verifier::external_body]
fn o_nonblock() -> (r: i32)
    ensures
        r != 0,
{
    libc::O_NONBLOCK
}

/// `flags` with the flag `bit` set or cleared, and every other flag as it was.
pub open spec fn spec_with_nonblocking(flags: i32, nonblocking: bool, bit: i32) -> i32 {
    if nonblocking {
        flags | bit
    } else {
        flags & !bit
    }
}

/// The descriptor flags `flags` with the non-blocking flag, which is `bit`
/// on this target, set or cleared, and every other flag as it was.
#[verifier::when_used_as_spec(spec_with_nonblocking)]
pub fn with_nonblocking(flags: i32, nonblocking: bool, bit: i32) -> (r: i32)
    ensures
        r == spec_with_nonblocking(flags, nonblocking, bit),
{
    if nonblocking {
        flags | bit
    } else {
        flags & !bit
    }
}

/// The descriptor flags `flags` with the non-blocking flag of this target,
/// which is some flag and not zero, set or cleared, and every other flag as
/// it was.
pub fn set_nonblocking(flags: i32, nonblocking: bool) -> (r: i32)
    ensures
        exists|bit: i32| bit != 0 && r == spec_with_nonblocking(flags, nonblocking, bit),
{
    let bit = o_nonblock();
    let r = with_nonblocking(flags, nonblocking, bit);
    proof {
        assert(bit != 0 && r == spec_with_nonblocking(flags, nonblocking, bit));
    }
    r
}

/// The option that sets the importance of the messages sent.
pub fn set_importance(importance: Importance) -> (r: SockOpt<u32>)
    ensures
        r == (SockOpt { level: 271i32, opt: 127u32, val: importance.value() }),
{
    SockOpt { level: SOL_TIPC as i32, opt: TIPC_IMPORTANCE, val: importance.as_u32() }
}

/// The option that sets the time to wait for a connection: the whole
/// milliseconds of `timeout`, as far as 32 bits hold them.
pub fn set_connect_timeout(timeout: Duration) -> (r: SockOpt<u32>)
    ensures
        r == (SockOpt {
            level: 271i32,
            opt: 130u32,
            val: (timeout.millis() % 0x1_0000_0000) as u32,
        }),
{
    SockOpt {
        level: SOL_TIPC as i32,
        opt: TIPC_CONN_TIMEOUT,
        val: (timeout.as_millis() % 0x1_0000_0000) as u32,
    }
}

/// The option `TIPC_DEST_DROPPABLE`, set to 1 for `true` and to 0 for
/// `false`. The option is written as it is asked for and in no other case:
/// which of the two the kernel starts with is left to the kernel.
pub fn set_rejectable(rejectable: bool) -> (r: SockOpt<i32>)
    ensures
        r == (SockOpt { level: 271i32, opt: 129u32, val: if rejectable { 1i32 } else { 0i32 } }),
{
    SockOpt {
        level: SOL_TIPC as i32,
        opt: TIPC_DEST_DROPPABLE,
        val: if rejectable {
            1
        } else {
            0
        },
    }
}

/// The option that leaves the group. It has no value.
pub fn leave() -> (r: SockOpt<()>)
    ensures
        r == (SockOpt { level: 271i32, opt: 136u32, val: () }),
{
    SockOpt { level: SOL_TIPC as i32, opt: TIPC_GROUP_LEAVE, val: () }
}

/// The error that a socket holds, from what reading the option `SO_ERROR`
/// came to: the `errno` read, or the error of the reading itself.
pub fn last_error(read: Result<u32, Error>) -> (r: Error)
    ensures
        r == (match read {
            Ok(errno) => Error::Os(errno as i32),
            Err(e) => e,
        }),
{
    match read {
        Ok(errno) => Error::Os(errno as i32),
        Err(e) => e,
    }
}

/// The socket that a kernel address names, as the kernel fills it in for the
/// local end, the peer, or an accepted connection.
pub fn local_addr(sa: &sockaddr_tipc) -> (r: SocketAddr)
    ensures
        r == SocketAddr(sa.spec_id()),
{
    SocketAddr(sa.id())
}

/// The kernel addresses to bind, one for each range, in their order.
pub open spec fn bind_requests(ranges: Seq<(ServiceRange, Visibility)>) -> Seq<sockaddr_tipc> {
    Seq::new(ranges.len(), |i: int| ranges[i].0.sockaddr(ranges[i].1))
}

/// The kernel addresses that undo bindings: those that bind, each with -1 in
/// its scope field.
pub open spec fn unbind_requests(ranges: Seq<(ServiceRange, Visibility)>) -> Seq<sockaddr_tipc> {
    Seq::new(
        ranges.len(),
        |i: int| (sockaddr_tipc { scope: -1i8, ..ranges[i].0.sockaddr(ranges[i].1) }),
    )
}

/// The kernel addresses to try to connect to, one for each service, in their order.
pub open spec fn connect_requests(services: Seq<(ServiceAddr, Scope)>) -> Seq<sockaddr_tipc> {
    Seq::new(services.len(), |i: int| services[i].0.sockaddr(services[i].1))
}

/// `through` applied to what resolving comes to.
pub open spec fn requests<T>(
    to: Result<Seq<T>, Error>,
    through: spec_fn(Seq<T>) -> Seq<sockaddr_tipc>,
) -> Result<Seq<sockaddr_tipc>, Error> {
    match to {
        Ok(items) => Ok(through(items)),
        Err(e) => Err(e),
    }
}

/// The addresses to hand to the kernel, one after the other, to bind `addr`.
pub fn bind<A: ToServiceRanges>(addr: &A) -> (r: Result<Vec<sockaddr_tipc>, Error>)
    ensures
        resolved(r, requests(addr.service_ranges(), |s| bind_requests(s))),
{
    let ranges = addr.to_service_ranges()?;
    let mut v: Vec<sockaddr_tipc> = Vec::new();
    let mut i: usize = 0;
    while i < ranges.len()
        invariant
            i <= ranges.len(),
            v@ == bind_requests(ranges@).subrange(0, i as int),
        decreases ranges.len() - i,
    {
        v.push(sockaddr_tipc::from(ranges[i]));
        i = i + 1;
        proof {
            assert(v@ =~= bind_requests(ranges@).subrange(0, i as int));
        }
    }
    proof {
        assert(v@ =~= bind_requests(ranges@));
    }
    Ok(v)
}

/// The addresses to hand to the kernel, one after the other, to undo the
/// binding of `addr`.
pub fn unbind<A: ToServiceRanges>(addr: &A) -> (r: Result<Vec<sockaddr_tipc>, Error>)
    ensures
        resolved(r, requests(addr.service_ranges(), |s| unbind_requests(s))),
{
    let ranges = addr.to_service_ranges()?;
    let mut v: Vec<sockaddr_tipc> = Vec::new();
    let mut i: usize = 0;
    while i < ranges.len()
        invariant
            i <= ranges.len(),
            v@ == unbind_requests(ranges@).subrange(0, i as int),
        decreases ranges.len() - i,
    {
        let sa = sockaddr_tipc::from(ranges[i]);
        v.push(sockaddr_tipc { scope: -1, ..sa });
        i = i + 1;
        proof {
            assert(v@ =~= unbind_requests(ranges@).subrange(0, i as int));
        }
    }
    proof {
        assert(v@ =~= unbind_requests(ranges@));
    }
    Ok(v)
}

/// The addresses to try to connect to, one after the other.
pub fn connect<A: ToServiceAddrs>(addr: &A) -> (r: Result<Vec<sockaddr_tipc>, Error>)
    ensures
        resolved(r, requests(addr.service_addrs(), |s| connect_requests(s))),
{
    let services = addr.to_service_addrs()?;
    let mut v: Vec<sockaddr_tipc> = Vec::new();
    let mut i: usize = 0;
    while i < services.len()
        invariant
            i <= services.len(),
            v@ == connect_requests(services@).subrange(0, i as int),
        decreases services.len() - i,
    {
        v.push(sockaddr_tipc::from(services[i]));
        i = i + 1;
        proof {
            assert(v@ =~= connect_requests(services@).subrange(0, i as int));
        }
    }
    proof {
        assert(v@ =~= connect_requests(services@));
    }
    Ok(v)
}

/// To connect within `timeout`: the option to set first, and then the
/// addresses to try.
pub fn connect_timeout<A: ToServiceAddrs>(addr: &A, timeout: Duration) -> (r: (
    SockOpt<u32>,
    Result<Vec<sockaddr_tipc>, Error>,
))
    ensures
        r.0 == (SockOpt {
            level: 271i32,
            opt: 130u32,
            val: (timeout.millis() % 0x1_0000_0000) as u32,
        }),
        resolved(r.1, requests(addr.service_addrs(), |s| connect_requests(s))),
{
    (set_connect_timeout(timeout), connect(addr))
}

/// What comes next in a run of calls.
#[derive(Clone, Copy, Debug, PartialEq, Eq)]
pub enum Step {
    /// Make the call with the request at this index.
    Call(usize),
    /// Make no more calls: this is the result.
    Done(Result<(), Error>),
}

/// What comes next in binding: the requests are made in their order until
/// one fails; its error is the result, and success where none fails.
pub open spec fn bind_next(outcomes: Seq<Result<(), Error>>, requests: nat) -> Step {
    if outcomes.len() > 0 && outcomes.last() is Err {
        Step::Done(outcomes.last())
    } else if outcomes.len() < requests {
        Step::Call(outcomes.len() as usize)
    } else {
        Step::Done(Ok(()))
    }
}

/// What comes next in connecting: the candidates are tried in their order
/// until one succeeds. Where none does, the result is the error of the last;
/// where there was none to try, that no address is available.
pub open spec fn connect_next(outcomes: Seq<Result<(), Error>>, candidates: nat) -> Step {
    if outcomes.len() > 0 && outcomes.last() is Ok {
        Step::Done(Ok(()))
    } else if outcomes.len() < candidates {
        Step::Call(outcomes.len() as usize)
    } else if outcomes.len() == 0 {
        Step::Done(Err(Error::AddrNotAvailable))
    } else {
        Step::Done(outcomes.last())
    }
}

/// What comes next in binding or unbinding `requests` addresses, after the
/// calls made so far came to `outcomes`.
pub fn bind_step(outcomes: &[Result<(), Error>], requests: usize) -> (r: Step)
    ensures
        r == bind_next(outcomes@, requests as nat),
{
    let n = outcomes.len();
    if n > 0 {
        if let Err(e) = outcomes[n - 1] {
            return Step::Done(Err(e));
        }
    }
    if n < requests {
        Step::Call(n)
    } else {
        Step::Done(Ok(()))
    }
}

/// What comes next in connecting to one of `candidates` addresses, after the
/// calls made so far came to `outcomes`.
pub fn connect_step(outcomes: &[Result<(), Error>], candidates: usize) -> (r: Step)
    ensures
        r == connect_next(outcomes@, candidates as nat),
{
    let n = outcomes.len();
    if n > 0 {
        if let Ok(_) = outcomes[n - 1] {
            return Step::Done(Ok(()));
        }
    }
    if n < candidates {
        Step::Call(n)
    } else if n == 0 {
        Step::Done(Err(Error::AddrNotAvailable))
    } else {
        Step::Done(outcomes[n - 1])
    }
}

/// The address a send goes to: the first that the destination resolves to.
pub open spec fn send_target(to: Result<Seq<sockaddr_tipc>, Error>) -> Result<sockaddr_tipc, Error> {
    match to {
        Err(e) => Err(e),
        Ok(addrs) => if addrs.len() == 0 {
            Err(Error::AddrNotAvailable)
        } else {
            Ok(addrs[0])
        },
    }
}

/// The address a multicast goes to: that of a send, marked as a multicast.
pub open spec fn mcast_target(to: Result<Seq<sockaddr_tipc>, Error>) -> Result<sockaddr_tipc, Error> {
    match send_target(to) {
        Err(e) => Err(e),
        Ok(sa) => Ok(sockaddr_tipc { addrtype: TIPC_ADDR_MCAST as u8, ..sa }),
    }
}

/// The kernel address to send to, for the destination `addr`.
pub fn send_to<A: ToSocketAddrs>(addr: &A) -> (r: Result<sockaddr_tipc, Error>)
    ensures
        r == send_target(addr.socket_addrs()),
{
    let addrs = addr.to_socket_addrs()?;
    if addrs.len() == 0 {
        Err(Error::AddrNotAvailable)
    } else {
        Ok(addrs[0])
    }
}

/// The kernel address to multicast to, for the destination `addr`.
pub fn mcast<A: ToSocketAddrs>(addr: &A) -> (r: Result<sockaddr_tipc, Error>)
    ensures
        r == mcast_target(addr.socket_addrs()),
{
    let sa = send_to(addr)?;
    Ok(sockaddr_tipc { addrtype: TIPC_ADDR_MCAST as u8, ..sa })
}

/// The request that joins the group of the first service: its type and
/// instance, the visibility that goes with the scope on the node `own_node`,
/// and the flags.
pub open spec fn join_request(
    to: Result<Seq<(ServiceAddr, Scope)>, Error>,
    flags: Join,
    own_node: u32,
) -> Result<SockOpt<tipc_group_req>, Error> {
    match to {
        Err(e) => Err(e),
        Ok(services) => if services.len() == 0 {
            Err(Error::AddrNotAvailable)
        } else {
            Ok(
                SockOpt {
                    level: 271i32,
                    opt: 135u32,
                    val: tipc_group_req {
                        type_: services[0].0.0.type_,
                        instance: services[0].0.0.instance,
                        scope: if services[0].1 is Node && services[0].1.domain() == own_node {
                            3u32
                        } else {
                            2u32
                        },
                        flags: flags@,
                    },
                },
            )
        },
    }
}

/// The option that joins the group `addr`, for a process on the node `own_node`.
pub fn join<A: ToServiceAddrs>(addr: &A, flags: Join, own_node: u32) -> (r: Result<
    SockOpt<tipc_group_req>,
    Error,
>)
    ensures
        r == join_request(addr.service_addrs(), flags, own_node),
{
    let services = addr.to_service_addrs()?;
    if services.len() == 0 {
        return Err(Error::AddrNotAvailable);
    }
    let (service, scope) = services[0];
    Ok(
        SockOpt {
            level: SOL_TIPC as i32,
            opt: TIPC_GROUP_JOIN,
            val: tipc_group_req {
                type_: service.ty(),
                instance: service.instance(),
                scope: scope.visibility(own_node).as_u32(),
                flags: flags.bits(),
            },
        },
    )
}

/// Lifts what a system call returned: a negative number is the failure of the
/// call, with the `errno` it left; any other is its result.
pub trait IntoResult<T>: Sized {
    spec fn lifted(self, errno: i32) -> Result<T, Error>;

    fn into_result(self, errno: i32) -> (r: Result<T, Error>)
        ensures
            r == self.lifted(errno),
    ;
}

impl IntoResult<i32> for i32 {
    open spec fn lifted(self, errno: i32) -> Result<i32, Error> {
        if self < 0 {
            Err(Error::Os(errno))
        } else {
            Ok(self)
        }
    }

    fn into_result(self, errno: i32) -> (r: Result<i32, Error>) {
        if self < 0 {
            Err(Error::Os(errno))
        } else {
            Ok(self)
        }
    }
}

impl IntoResult<usize> for isize {
    open spec fn lifted(self, errno: i32) -> Result<usize, Error> {
        if self < 0 {
            Err(Error::Os(errno))
        } else {
            Ok(self as usize)
        }
    }

    fn into_result(self, errno: i32) -> (r: Result<usize, Error>) {
        if self < 0 {
            Err(Error::Os(errno))
        } else {
            Ok(self as usize)
        }
    }
}

impl IntoResult<()> for i32 {
    open spec fn lifted(self, errno: i32) -> Result<(), Error> {
        if self < 0 {
            Err(Error::Os(errno))
        } else {
            Ok(())
        }
    }

    fn into_result(self, errno: i32) -> (r: Result<(), Error>) {
        if self < 0 {
            Err(Error::Os(errno))
        } else {
            Ok(())
        }
    }
}

/// What a read that has to fill its buffer came to: success where all
/// `expected` bytes arrived, and the end of the data before that otherwise.
pub fn read_exact(size: usize, expected: usize) -> (r: Result<(), Error>)
    ensures
        size == expected ==> r == Ok::<(), Error>(()),
        size != expected ==> r == Err::<(), Error>(Error::IncompleteRead { size, expected }),
{
    if size == expected {
        Ok(())
    } else {
        Err(Error::IncompleteRead { size, expected })
    }
}

/// One record of ancillary data: the level and type the kernel gave it, and
/// its payload.
#[derive(Clone, Debug, PartialEq, Eq)]
pub struct ControlMessage {
    pub level: i32,
    pub ty: i32,
    pub data: Vec<u8>,
}

impl ControlMessage {
    /// A TIPC record that reports an undelivered message: two `u32`.
    pub open spec fn is_errinfo(&self) -> bool {
        self.level == 271 && self.ty == 1 && self.data@.len() == 8
    }

    /// A TIPC record that brings back `len` bytes of an undelivered message.
    pub open spec fn is_retdata(&self, len: nat) -> bool {
        self.level == 271 && self.ty == 2 && self.data@.len() == len
    }

    /// A TIPC record that names the range a message was sent to: three `u32`.
    pub open spec fn is_destname(&self) -> bool {
        self.level == 271 && self.ty == 3 && self.data@.len() == 12
    }

    /// The error code, and the length of the data that came back.
    pub open spec fn errinfo(&self) -> (u32, u32) {
        (
            ne_value(self.data@.subrange(0, 4)) as u32,
            ne_value(self.data@.subrange(4, 8)) as u32,
        )
    }

    /// The range the message was sent to: type, lower, upper.
    pub open spec fn destname(&self) -> ServiceRange {
        ServiceRange::spec_new(
            ne_value(self.data@.subrange(0, 4)) as u32,
            ne_value(self.data@.subrange(4, 8)) as u32,
            ne_value(self.data@.subrange(8, 12)) as u32,
        )
    }

    /// The error code and the length of the data that came back, where the
    /// record reports an undelivered message.
    pub fn as_errinfo(&self) -> (r: Option<(u32, u32)>)
        ensures
            r == (if self.is_errinfo() {
                Some(self.errinfo())
            } else {
                None
            }),
    {
        if self.level == SOL_TIPC as i32 && self.ty == TIPC_ERRINFO as i32 && self.data.len() == 8 {
            let data = self.data.as_slice();
            Some((read_u32(data, 0), read_u32(data, 4)))
        } else {
            None
        }
    }

    /// The range the message was sent to, where the record names one.
    pub fn as_destname(&self) -> (r: Option<ServiceRange>)
        ensures
            r == (if self.is_destname() {
                Some(self.destname())
            } else {
                None
            }),
    {
        if self.level == SOL_TIPC as i32 && self.ty == TIPC_DESTNAME as i32 && self.data.len()
            == 12 {
            let data = self.data.as_slice();
            Some(ServiceRange::new(read_u32(data, 0), read_u32(data, 4), read_u32(data, 8)))
        } else {
            None
        }
    }

    /// Whether the record brings back `len` bytes of an undelivered message.
    pub fn brings_back(&self, len: usize) -> (r: bool)
        ensures
            r == self.is_retdata(len as nat),
    {
        self.level == SOL_TIPC as i32 && self.ty == TIPC_RETDATA as i32 && self.data.len() == len
    }
}

/// What the last record that reports an undelivered message says.
pub open spec fn last_errinfo(control: Seq<ControlMessage>) -> Option<(u32, u32)>
    decreases control.len(),
{
    if control.len() == 0 {
        None
    } else if control.last().is_errinfo() {
        Some(control.last().errinfo())
    } else {
        last_errinfo(control.drop_last())
    }
}

/// The last destination range among the records.
pub open spec fn last_destname(control: Seq<ControlMessage>) -> Option<ServiceRange>
    decreases control.len(),
{
    if control.len() == 0 {
        None
    } else if control.last().is_destname() {
        Some(control.last().destname())
    } else {
        last_destname(control.drop_last())
    }
}

/// The first destination range among the records.
pub open spec fn first_destname(control: Seq<ControlMessage>) -> Option<ServiceRange>
    decreases control.len(),
{
    if control.len() == 0 {
        None
    } else if control[0].is_destname() {
        Some(control[0].destname())
    } else {
        first_destname(control.drop_first())
    }
}

/// The payload of the last record that brings back `len` bytes.
pub open spec fn last_retdata(control: Seq<ControlMessage>, len: nat) -> Option<Seq<u8>>
    decreases control.len(),
{
    if control.len() == 0 {
        None
    } else if control.last().is_retdata(len) {
        Some(control.last().data@)
    } else {
        last_retdata(control.drop_last(), len)
    }
}

/// The data that came back with an undelivered message: that of the last
/// record whose length is the length that the last report gives. The two
/// may stand in either order, and records of other kinds between them.
pub open spec fn returned_data(control: Seq<ControlMessage>) -> Option<Seq<u8>> {
    match last_errinfo(control) {
        None => None,
        Some(info) => last_retdata(control, info.1 as nat),
    }
}

/// `buf` with `data` written over its start, as far as both reach.
pub open spec fn overwritten(buf: Seq<u8>, data: Seq<u8>) -> Seq<u8> {
    if data.len() <= buf.len() {
        data + buf.subrange(data.len() as int, buf.len() as int)
    } else {
        data.subrange(0, buf.len() as int)
    }
}

/// Whose address goes with what was received.
#[derive(Clone, Copy, Debug, PartialEq, Eq, Hash, Structural)]
pub enum Origin {
    /// The socket that sent it.
    Sender(SocketAddr),
    /// This socket itself: the message is its own, come back.
    Local,
}

/// What one receive call handed back, beside the data in the buffer.
#[derive(Clone, Debug, PartialEq, Eq)]
pub struct Received {
    /// The number of bytes of data.
    pub len: usize,
    /// The flags of the message.
    pub flags: i32,
    /// The address of the sending socket: the first slot of the name area.
    pub source: sockaddr_tipc,
    /// The service of the member that a group event is about: the second
    /// slot of the name area, where the kernel wrote it.
    pub member: Option<sockaddr_tipc>,
    /// The ancillary data, record by record.
    pub control: Vec<ControlMessage>,
}

impl Received {
    /// The message is out of band: a group event.
    pub open spec fn is_oob(&self) -> bool {
        self.flags & MSG_OOB == MSG_OOB
    }

    /// The message ends a record: as a group event, a member left.
    pub open spec fn is_eor(&self) -> bool {
        self.flags & MSG_EOR == MSG_EOR
    }

    /// The message is a group event: out of band, and without data.
    pub open spec fn spec_is_member_event(&self) -> bool {
        self.is_oob() && self.len == 0
    }

    /// Whether the message is a group event, which names the member it is
    /// about in the second slot of the name area.
    #[verifier::when_used_as_spec(spec_is_member_event)]
    pub fn is_member_event(&self) -> (r: bool)
        ensures
            r == self.spec_is_member_event(),
    {
        self.flags & MSG_OOB == MSG_OOB && self.len == 0
    }

    /// A group event names the member it is about.
    pub open spec fn names_its_member(&self) -> bool {
        self.spec_is_member_event() ==> self.member is Some
    }

    /// What was received, and from whom.
    ///
    /// An out-of-band message is a group event: a member left where the
    /// message ends a record, and joined where it does not; it must carry no
    /// data. Any other message is data, or, where the ancillary data reports
    /// it, a message of this socket that came back undelivered.
    pub open spec fn message(&self) -> Result<(RecvMsg, Origin), Error> {
        let sender = Origin::Sender(SocketAddr(self.source.spec_id()));
        let member = ServiceAddr(self.member->Some_0.spec_name().name);
        let service = last_destname(self.control@);
        if self.is_oob() {
            if self.len != 0 {
                Err(Error::UnexpectedOob)
            } else if self.is_eor() {
                Ok((RecvMsg::MemberLeave(member), sender))
            } else {
                Ok((RecvMsg::MemberJoin(member), sender))
            }
        } else {
            match last_errinfo(self.control@) {
                Some(info) => Ok((RecvMsg::Rejected { err: info.0, service }, Origin::Local)),
                None => Ok((RecvMsg::Message { len: self.len, service }, sender)),
            }
        }
    }

    /// The buffer after the receive: where a message came back undelivered
    /// with its data, that data stands at the start of the buffer, as far as
    /// the buffer reaches; in every other case the buffer is as it was.
    pub open spec fn buffer(&self, buf: Seq<u8>) -> Seq<u8> {
        if self.is_oob() {
            buf
        } else {
            match returned_data(self.control@) {
                None => buf,
                Some(data) => overwritten(buf, data),
            }
        }
    }
}

/// Reads what a receive call handed back, and puts the data of a message
/// that came back undelivered into `buf`. A group event has to name its
/// member: one that names none is not to be read.
pub fn recv_msg(received: &Received, buf: &mut [u8]) -> (r: Result<(RecvMsg, Origin), Error>)
    requires
        received.names_its_member(),
    ensures
        r == received.message(),
        final(buf)@ == received.buffer(old(buf)@),
{
    let sender = Origin::Sender(SocketAddr(received.source.id()));
    if received.flags & MSG_OOB == MSG_OOB {
        if received.len != 0 {
            return Err(Error::UnexpectedOob);
        }
        let slot = received.member.unwrap();
        let member = ServiceAddr(slot.name().name);
        return if received.flags & MSG_EOR == MSG_EOR {
            Ok((RecvMsg::MemberLeave(member), sender))
        } else {
            Ok((RecvMsg::MemberJoin(member), sender))
        };
    }
    let control = &received.control;
    let n = control.len();
    let mut info: Option<(u32, u32)> = None;
    let mut service: Option<ServiceRange> = None;
    let mut i: usize = 0;
    while i < n
        invariant
            i <= n,
            n == control.len(),
            info == last_errinfo(control@.subrange(0, i as int)),
            service == last_destname(control@.subrange(0, i as int)),
        decreases n - i,
    {
        proof {
            let next = control@.subrange(0, i + 1);
            assert(next.last() == control[i as int]);
            assert(next.drop_last() =~= control@.subrange(0, i as int));
        }
        match control[i].as_errinfo() {
            Some(found) => {
                info = Some(found);
            },
            None => {},
        }
        match control[i].as_destname() {
            Some(found) => {
                service = Some(found);
            },
            None => {},
        }
        i = i + 1;
    }
    proof {
        assert(control@.subrange(0, n as int) =~= control@);
    }
    let (err, len) = match info {
        None => {
            return Ok((RecvMsg::Message { len: received.len, service }, sender));
        },
        Some(found) => found,
    };
    let len = len as usize;
    let mut back: Option<usize> = None;
    let mut j: usize = 0;
    while j < n
        invariant
            j <= n,
            n == control.len(),
            match back {
                None => last_retdata(control@.subrange(0, j as int), len as nat) is None,
                Some(k) => k < j && control[k as int].data@.len() == len && last_retdata(
                    control@.subrange(0, j as int),
                    len as nat,
                ) == Some(control[k as int].data@),
            },
        decreases n - j,
    {
        proof {
            let next = control@.subrange(0, j + 1);
            assert(next.last() == control[j as int]);
            assert(next.drop_last() =~= control@.subrange(0, j as int));
        }
        if control[j].brings_back(len) {
            back = Some(j);
        }
        j = j + 1;
    }
    match back {
        None => {},
        Some(k) => {
            let data = control[k].data.as_slice();
            let count = if len <= buf.len() {
                len
            } else {
                buf.len()
            };
            copy_prefix(buf, data, count);
            proof {
                if len <= old(buf)@.len() {
                    assert(data@.subrange(0, len as int) =~= data@);
                } else {
                    assert(old(buf)@.subrange(count as int, old(buf)@.len() as int)
                        =~= Seq::<u8>::empty());
                    assert(buf@ =~= data@.subrange(0, count as int));
                }
            }
        },
    }
    Ok((RecvMsg::Rejected { err, service }, Origin::Local))
}

/// Writes the first `n` bytes of `data` over the first `n` bytes of `buf`.
fn copy_prefix(buf: &mut [u8], data: &[u8], n: usize)
    requires
        n <= old(buf)@.len(),
        n <= data@.len(),
    ensures
        final(buf)@ == data@.subrange(0, n as int) + old(buf)@.subrange(
            n as int,
            old(buf)@.len() as int,
        ),
{
    let mut i: usize = 0;
    while i < n
        invariant
            i <= n,
            n <= data@.len(),
            buf@.len() == old(buf)@.len(),
            n <= buf@.len(),
            buf@ == data@.subrange(0, i as int) + old(buf)@.subrange(
                i as int,
                old(buf)@.len() as int,
            ),
        decreases n - i,
    {
        buf[i] = data[i];
        i = i + 1;
    }
}

/// What a receive that wants data makes of a delivery: the length of the
/// data and its sender. A message that came back undelivered is the error
/// `Rejected` with its code; a group event is an error as well.
pub fn recv_from(delivery: (RecvMsg, SocketAddr)) -> (r: Result<(usize, SocketAddr), Error>)
    ensures
        r == (match delivery.0 {
            RecvMsg::Message { len, .. } => Ok((len, delivery.1)),
            RecvMsg::Rejected { err, .. } => Err(Error::Rejected(err)),
            _ => Err(Error::UnexpectedGroupEvent(delivery.0)),
        }),
{
    match delivery.0 {
        RecvMsg::Message { len, .. } => Ok((len, delivery.1)),
        RecvMsg::Rejected { err, .. } => Err(Error::Rejected(err)),
        _ => Err(Error::UnexpectedGroupEvent(delivery.0)),
    }
}

/// What a receive into several buffers came to: the number of bytes, the
/// sender, and the range the message was sent to, which is that of the first
/// record that names one.
pub fn recv_from_vectored(len: usize, sender: &sockaddr_tipc, control: &[ControlMessage]) -> (r: (
    usize,
    SocketAddr,
    Option<ServiceRange>,
))
    ensures
        r == (len, SocketAddr(sender.spec_id()), first_destname(control@)),
{
    let n = control.len();
    proof {
        assert(control@.subrange(0, n as int) =~= control@);
    }
    let mut i: usize = 0;
    while i < n
        invariant
            i <= n,
            n == control.len(),
            first_destname(control@) == first_destname(control@.subrange(i as int, n as int)),
        decreases n - i,
    {
        proof {
            let rest = control@.subrange(i as int, n as int);
            assert(rest[0] == control[i as int]);
            assert(rest.drop_first() =~= control@.subrange(i + 1, n as int));
        }
        match control[i].as_destname() {
            Some(found) => {
                return (len, SocketAddr(sender.id()), Some(found));
            },
            None => {},
        }
        i = i + 1;
    }
    (len, SocketAddr(sender.id()), None)
}

/// An out-of-band message with no data is a group event about the member it
/// names: the member left where the message ends a record, and joined where
/// it does not. With data, it is an error. The buffer is left as it was.
pub proof fn lemma_oob(received: Received)
    requires
        received.is_oob(),
        received.names_its_member(),
    ensures
        received.len == 0 && received.is_eor() ==> received.member is Some && received.message()
            == Ok::<(RecvMsg, Origin), Error>(
            (
                RecvMsg::MemberLeave(ServiceAddr(received.member->Some_0.spec_name().name)),
                Origin::Sender(SocketAddr(received.source.spec_id())),
            ),
        ),
        received.len == 0 && !received.is_eor() ==> received.member is Some && received.message()
            == Ok::<(RecvMsg, Origin), Error>(
            (
                RecvMsg::MemberJoin(ServiceAddr(received.member->Some_0.spec_name().name)),
                Origin::Sender(SocketAddr(received.source.spec_id())),
            ),
        ),
        received.len > 0 ==> received.message() == Err::<(RecvMsg, Origin), Error>(
            Error::UnexpectedOob,
        ),
        forall|buf: Seq<u8>| received.buffer(buf) == buf,
{
}

/// The name that the kernel wrote into `room`: the bytes before the first
/// zero byte, all of them where there is none, read as UTF-8.
pub open spec fn name_in(room: Seq<u8>) -> Result<Seq<char>, Error> {
    if valid_utf8(before(room, 0)) {
        Ok(decode_utf8(before(room, 0)))
    } else {
        Err(Error::InvalidName)
    }
}

/// Reads the name that the kernel wrote into `room`, as for a link or a node.
pub fn name(room: &[u8]) -> (r: Result<String, Error>)
    ensures
        match r {
            Ok(s) => name_in(room@) == Ok::<Seq<char>, Error>(s@),
            Err(e) => name_in(room@) == Err::<Seq<char>, Error>(e),
        },
{
    let (head, _) = split_once(room, 0);
    match into_string(vstd::slice::slice_to_vec(head)) {
        Some(s) => Ok(s),
        None => Err(Error::InvalidName),
    }
}

} // verus!
