//! Addresses: a socket, a service, a range of services; the scope in which a
//! service is looked up and the visibility with which it is bound; their text
//! forms and the kernel address each one becomes.

use crate::ffi::{sockaddr_tipc, tipc_name, tipc_name_seq, tipc_portid, AF_TIPC};
use crate::text::{
    after, all_digits, ascii_string, before, is_ascii, lemma_digits_hold_no, lemma_numeral_digits,
    lemma_numeral_value, lemma_padded_value, lemma_split_joined, numeral, numeral_value, padded,
    parse_u32, push_numeral, push_padded, split_once, IntErrorKind, Radix, AT, COLON, ZERO,
};
use core::ops::{Range, RangeFrom, RangeFull, RangeTo};
use core::str::FromStr;
use vstd::prelude::*;
use vstd::std_specs::cmp::PartialEqSpecImpl;
use vstd::std_specs::convert::FromSpecImpl;
use vstd::string::{StringExecFns, StringSliceAdditionalSpecFns};
use vstd::utf8::encode_utf8;

verus! {

pub const TIPC_ADDR_MCAST: i32 = 1;

pub const TIPC_SERVICE_RANGE: u8 = 1;

pub const TIPC_SERVICE_ADDR: u8 = 2;

pub const TIPC_SOCKET_ADDR: u8 = 3;

pub const LESS: u8 = 60;

pub const GREATER: u8 = 62;

pub const DOT: u8 = 46;

/// A service type number.
pub type Type = u32;

/// A service instance number.
pub type Instance = u32;

/// `core::ops::RangeTo`, with its one field `end` as it stands.
#[verifier::external_type_specification]
pub struct ExRangeTo<Idx>(RangeTo<Idx>);

/// `core::ops::RangeFrom`, with its one field `start` as it stands.
#[verifier::external_type_specification]
pub struct ExRangeFrom<Idx>(RangeFrom<Idx>);

/// `core::ops::RangeFull`, which has no field.
#[verifier::external_type_specification]
pub struct ExRangeFull(RangeFull);

/// A physical entity within a network: zone (8 bits), cluster (12 bits) and
/// node (12 bits), packed into 32 bits in that order from the top.
#[derive(Clone, Copy, Debug, Hash, PartialEq, Eq, PartialOrd, Ord, Structural)]
pub struct NetworkAddr(pub u32);

impl Default for NetworkAddr {
    fn default() -> (r: Self)
        ensures
            r.0 == 0,
    {
        NetworkAddr(0)
    }
}

impl PartialEq<u32> for NetworkAddr {
    fn eq(&self, other: &u32) -> (r: bool) {
        self.0 == *other
    }
}

/// A network address is equal to the number it is packed into.
impl PartialEqSpecImpl<u32> for NetworkAddr {
    open spec fn obeys_eq_spec() -> bool {
        true
    }

    open spec fn eq_spec(&self, other: &u32) -> bool {
        self.0 == *other
    }
}

impl From<u32> for NetworkAddr {
    fn from(n: u32) -> (r: Self) {
        NetworkAddr(n)
    }
}

impl FromSpecImpl<u32> for NetworkAddr {
    open spec fn obeys_from_spec() -> bool {
        true
    }

    open spec fn from_spec(n: u32) -> Self {
        NetworkAddr(n)
    }
}

impl From<NetworkAddr> for u32 {
    fn from(addr: NetworkAddr) -> (r: Self) {
        addr.0
    }
}

impl FromSpecImpl<NetworkAddr> for u32 {
    open spec fn obeys_from_spec() -> bool {
        true
    }

    open spec fn from_spec(addr: NetworkAddr) -> Self {
        addr.0
    }
}

impl NetworkAddr {
    /// The zone: the top eight bits.
    pub open spec fn spec_zone(self) -> u32 {
        self.0 / 0x100_0000
    }

    /// The cluster: the twelve bits in the middle.
    pub open spec fn spec_cluster(self) -> u32 {
        (self.0 / 0x1000) % 0x1000
    }

    /// The node: the low twelve bits.
    pub open spec fn spec_node(self) -> u32 {
        self.0 % 0x1000
    }

    /// Packs the three parts. Bits of a part that do not fit its field fall
    /// into the fields above it, or out at the top.
    pub fn new(zone: u32, cluster: u32, node: u32) -> (r: Self)
        ensures
            r.0 == (zone << 24) | (cluster << 12) | node,
            zone < 0x100 && cluster < 0x1000 && node < 0x1000 ==> r.0 == zone * 0x100_0000
                + cluster * 0x1000 + node,
    {
        let packed: u32 = (zone << 24) | (cluster << 12) | node;
        proof {
            if zone < 0x100 && cluster < 0x1000 && node < 0x1000 {
                assert(zone < 0x100 && cluster < 0x1000 && node < 0x1000 ==> (zone << 24) | (cluster
                    << 12) | node == zone * 0x100_0000 + cluster * 0x1000 + node) by (bit_vector);
            }
        }
        NetworkAddr(packed)
    }

    #[verifier::when_used_as_spec(spec_zone)]
    pub fn zone(self) -> (r: u32)
        ensures
            r == self.spec_zone(),
            r < 0x100,
    {
        let x = self.0;
        proof {
            assert(x >> 24 == x / 0x100_0000 && x >> 24 < 0x100) by (bit_vector);
        }
        x >> 24
    }

    #[verifier::when_used_as_spec(spec_cluster)]
    pub fn cluster(self) -> (r: u32)
        ensures
            r == self.spec_cluster(),
            r < 0x1000,
    {
        let x = self.0;
        proof {
            assert((x & 16773120) >> 12 == (x / 0x1000) % 0x1000) by (bit_vector);
        }
        (x & 16773120) >> 12
    }

    #[verifier::when_used_as_spec(spec_node)]
    pub fn node(self) -> (r: u32)
        ensures
            r == self.spec_node(),
            r < 0x1000,
    {
        let x = self.0;
        proof {
            assert(x & 4095 == x % 0x1000) by (bit_vector);
        }
        x & 4095
    }

    /// The text form: `<zone.cluster.node>`, each part in decimal.
    pub open spec fn text(self) -> Seq<u8> {
        seq![LESS] + numeral(self.spec_zone() as nat, Radix::Decimal) + seq![DOT] + numeral(
            self.spec_cluster() as nat,
            Radix::Decimal,
        ) + seq![DOT] + numeral(self.spec_node() as nat, Radix::Decimal) + seq![GREATER]
    }

    /// The text form as a string.
    pub fn to_string(&self) -> (r: String)
        ensures
            encode_utf8(r@) == self.text(),
    {
        let mut out: Vec<u8> = Vec::new();
        out.push(LESS);
        push_numeral(&mut out, self.zone(), Radix::Decimal);
        out.push(DOT);
        push_numeral(&mut out, self.cluster(), Radix::Decimal);
        out.push(DOT);
        push_numeral(&mut out, self.node(), Radix::Decimal);
        out.push(GREATER);
        proof {
            assert(out@ =~= self.text());
            lemma_numeral_ascii(self.spec_zone() as nat, Radix::Decimal);
            lemma_numeral_ascii(self.spec_cluster() as nat, Radix::Decimal);
            lemma_numeral_ascii(self.spec_node() as nat, Radix::Decimal);
        }
        ascii_string(out)
    }
}

/// A numeral is ASCII text.
pub proof fn lemma_numeral_ascii(n: nat, radix: Radix)
    ensures
        is_ascii(numeral(n, radix)),
{
    lemma_numeral_digits(n, radix);
    lemma_digits_ascii(numeral(n, radix), radix);
}

/// Digits are ASCII text.
pub proof fn lemma_digits_ascii(s: Seq<u8>, radix: Radix)
    requires
        all_digits(s, radix),
    ensures
        is_ascii(s),
{
    assert forall|i: int| 0 <= i < s.len() implies (#[trigger] s[i]) < 128 by {
        assert(crate::text::digit_of(s[i], radix) is Some);
    }
}

/// Packing parts that fit their fields and taking them out again gives the
/// parts back; and the parts of any packed number pack to that number.
pub proof fn lemma_network_addr_round_trip(zone: u32, cluster: u32, node: u32, packed: u32)
    ensures
        zone < 0x100 && cluster < 0x1000 && node < 0x1000 ==> {
            let a = NetworkAddr((zone * 0x100_0000 + cluster * 0x1000 + node) as u32);
            a.spec_zone() == zone && a.spec_cluster() == cluster && a.spec_node() == node
        },
        NetworkAddr(packed).spec_zone() * 0x100_0000 + NetworkAddr(packed).spec_cluster() * 0x1000
            + NetworkAddr(packed).spec_node() == packed,
{
}

/// Why a text is no address.
#[derive(Clone, Copy, Debug, PartialEq, Eq, Hash, Structural)]
pub enum AddrParseError {
    /// There is no `:` with a socket reference behind it.
    MissingRef,
    /// The socket reference is no decimal `u32`.
    InvalidRef(IntErrorKind),
    /// There is no service type.
    MissingType,
    /// The service type is no decimal `u32`.
    InvalidType(IntErrorKind),
    /// There is no `:` with an instance behind it.
    MissingInstance,
    /// An instance is no decimal `u32`.
    InvalidInstance(IntErrorKind),
    /// There is no `@` with a node behind it.
    MissingNode,
    /// The node is no hexadecimal `u32`.
    InvalidNode(IntErrorKind),
}

impl AddrParseError {
    /// Why the text is no address, in words; where a numeral is at fault,
    /// with what is wrong with it.
    pub open spec fn message(self) -> Seq<char> {
        match self {
            AddrParseError::MissingRef => "missing reference"@,
            AddrParseError::InvalidRef(e) => "invalid reference, "@ + e.message(),
            AddrParseError::MissingType => "missing type"@,
            AddrParseError::InvalidType(e) => "invalid type, "@ + e.message(),
            AddrParseError::MissingInstance => "missing instance"@,
            AddrParseError::InvalidInstance(e) => "invalid instance, "@ + e.message(),
            AddrParseError::MissingNode => "missing node"@,
            AddrParseError::InvalidNode(e) => "invalid node, "@ + e.message(),
        }
    }

    /// Why the text is no address, in words.
    pub fn to_string(&self) -> (r: String)
        ensures
            r@ == self.message(),
    {
        match self {
            AddrParseError::MissingRef => "missing reference".to_owned(),
            AddrParseError::InvalidRef(e) => "invalid reference, ".to_owned().concat(
                e.to_string().as_str(),
            ),
            AddrParseError::MissingType => "missing type".to_owned(),
            AddrParseError::InvalidType(e) => "invalid type, ".to_owned().concat(
                e.to_string().as_str(),
            ),
            AddrParseError::MissingInstance => "missing instance".to_owned(),
            AddrParseError::InvalidInstance(e) => "invalid instance, ".to_owned().concat(
                e.to_string().as_str(),
            ),
            AddrParseError::MissingNode => "missing node".to_owned(),
            AddrParseError::InvalidNode(e) => "invalid node, ".to_owned().concat(
                e.to_string().as_str(),
            ),
        }
    }
}

/// A specific socket in the cluster: its port, and the node it lives on. It
/// names the socket only as long as the socket exists.
#[derive(Clone, Copy, Debug, Hash, PartialEq, Eq, PartialOrd, Ord, Structural)]
pub struct SocketAddr(pub tipc_portid);

/// A service: a type, and an instance of it.
#[derive(Clone, Copy, Debug, Hash, PartialEq, Eq, PartialOrd, Ord, Structural)]
pub struct ServiceAddr(pub tipc_name);

/// The services of one type whose instances lie between `lower` and `upper`,
/// both included. Binds many instances at once, and names the receivers of a
/// multicast.
#[derive(Clone, Copy, Debug, Hash, PartialEq, Eq, PartialOrd, Ord, Structural)]
pub struct ServiceRange(pub tipc_name_seq);

impl Default for SocketAddr {
    fn default() -> (r: Self)
        ensures
            r == SocketAddr(tipc_portid { ref_: 0, node: 0 }),
    {
        SocketAddr(tipc_portid { ref_: 0, node: 0 })
    }
}

impl Default for ServiceAddr {
    fn default() -> (r: Self)
        ensures
            r == ServiceAddr(tipc_name { type_: 0, instance: 0 }),
    {
        ServiceAddr(tipc_name { type_: 0, instance: 0 })
    }
}

impl Default for ServiceRange {
    fn default() -> (r: Self)
        ensures
            r == ServiceRange(tipc_name_seq { type_: 0, lower: 0, upper: 0 }),
    {
        ServiceRange(tipc_name_seq { type_: 0, lower: 0, upper: 0 })
    }
}

impl SocketAddr {
    pub open spec fn spec_new(port: u32, node: u32) -> Self {
        SocketAddr(tipc_portid { ref_: port, node })
    }

    pub open spec fn spec_port(&self) -> u32 {
        self.0.ref_
    }

    pub open spec fn spec_node(&self) -> u32 {
        self.0.node
    }

    /// The address of the socket `port` on `node`.
    #[verifier::when_used_as_spec(spec_new)]
    pub fn new(port: u32, node: u32) -> (r: Self)
        ensures
            r == Self::spec_new(port, node),
    {
        SocketAddr(tipc_portid { ref_: port, node })
    }

    /// The port number.
    #[verifier::when_used_as_spec(spec_port)]
    pub fn port(&self) -> (r: u32)
        ensures
            r == self.spec_port(),
    {
        self.0.ref_
    }

    /// The node hash number.
    #[verifier::when_used_as_spec(spec_node)]
    pub fn node(&self) -> (r: u32)
        ensures
            r == self.spec_node(),
    {
        self.0.node
    }

    /// The scope that holds just the node of this socket; the whole cluster
    /// where the node is zero.
    pub fn scope(self) -> (r: Scope)
        ensures
            r == Scope::spec_new(self.spec_node()),
            r.wf(),
            r.domain() == self.spec_node(),
            r is Global <==> self.spec_node() == 0,
    {
        Scope::new(self.0.node)
    }

    /// The text form: `0:`, the port in ten decimal digits, `@`, the node in
    /// hexadecimal.
    pub open spec fn text(self) -> Seq<u8> {
        seq![ZERO, COLON] + padded(self.spec_port() as nat, 10) + seq![AT] + numeral(
            self.spec_node() as nat,
            Radix::Hexadecimal,
        )
    }

    /// The text form as a string.
    pub fn to_string(&self) -> (r: String)
        ensures
            encode_utf8(r@) == self.text(),
    {
        let mut out: Vec<u8> = Vec::new();
        out.push(ZERO);
        out.push(COLON);
        push_padded(&mut out, self.0.ref_, 10);
        out.push(AT);
        push_numeral(&mut out, self.0.node, Radix::Hexadecimal);
        proof {
            assert(out@ =~= self.text());
            lemma_padded_value(self.0.ref_, 10);
            lemma_digits_ascii(padded(self.0.ref_ as nat, 10), Radix::Decimal);
            lemma_numeral_ascii(self.0.node as nat, Radix::Hexadecimal);
        }
        ascii_string(out)
    }

    /// What a text says as a socket address. Whatever stands before the first
    /// `:` is passed over; behind it stands the port in decimal, then `@` and
    /// the node in hexadecimal.
    pub open spec fn parsed(text: Seq<u8>) -> Result<SocketAddr, AddrParseError> {
        match after(text, COLON) {
            None => Err(AddrParseError::MissingRef),
            Some(rest) => match numeral_value(before(rest, AT), Radix::Decimal) {
                Err(e) => Err(AddrParseError::InvalidRef(e)),
                Ok(port) => match after(rest, AT) {
                    None => Err(AddrParseError::MissingNode),
                    Some(tail) => match numeral_value(tail, Radix::Hexadecimal) {
                        Err(e) => Err(AddrParseError::InvalidNode(e)),
                        Ok(node) => Ok(SocketAddr::spec_new(port, node)),
                    },
                },
            },
        }
    }

    /// Reads a socket address from its text form.
    pub fn parse(s: &str) -> (r: Result<SocketAddr, AddrParseError>)
        ensures
            r == Self::parsed(s.spec_bytes()),
    {
        let (_, rest) = split_once(s.as_bytes(), COLON);
        let rest = match rest {
            None => {
                return Err(AddrParseError::MissingRef);
            },
            Some(rest) => rest,
        };
        let (head, tail) = split_once(rest, AT);
        let port = match parse_u32(head, Radix::Decimal) {
            Err(e) => {
                return Err(AddrParseError::InvalidRef(e));
            },
            Ok(port) => port,
        };
        let tail = match tail {
            None => {
                return Err(AddrParseError::MissingNode);
            },
            Some(tail) => tail,
        };
        match parse_u32(tail, Radix::Hexadecimal) {
            Err(e) => Err(AddrParseError::InvalidNode(e)),
            Ok(node) => Ok(SocketAddr::new(port, node)),
        }
    }
}

impl ServiceAddr {
    pub open spec fn spec_new(ty: Type, instance: Instance) -> Self {
        ServiceAddr(tipc_name { type_: ty, instance })
    }

    pub open spec fn spec_ty(&self) -> Type {
        self.0.type_
    }

    pub open spec fn spec_instance(&self) -> Instance {
        self.0.instance
    }

    /// The address of instance `instance` of the service type `ty`.
    #[verifier::when_used_as_spec(spec_new)]
    pub fn new(ty: Type, instance: Instance) -> (r: Self)
        ensures
            r == Self::spec_new(ty, instance),
    {
        ServiceAddr(tipc_name { type_: ty, instance })
    }

    /// The type identifier.
    #[verifier::when_used_as_spec(spec_ty)]
    pub fn ty(&self) -> (r: Type)
        ensures
            r == self.spec_ty(),
    {
        self.0.type_
    }

    /// The instance identifier.
    #[verifier::when_used_as_spec(spec_instance)]
    pub fn instance(&self) -> (r: Instance)
        ensures
            r == self.spec_instance(),
    {
        self.0.instance
    }

    /// The text form: type, `:`, instance, both in decimal, then `@0`.
    pub open spec fn text(self) -> Seq<u8> {
        numeral(self.spec_ty() as nat, Radix::Decimal) + seq![COLON] + numeral(
            self.spec_instance() as nat,
            Radix::Decimal,
        ) + seq![AT, ZERO]
    }

    /// The text form as a string.
    pub fn to_string(&self) -> (r: String)
        ensures
            encode_utf8(r@) == self.text(),
    {
        let mut out: Vec<u8> = Vec::new();
        push_numeral(&mut out, self.0.type_, Radix::Decimal);
        out.push(COLON);
        push_numeral(&mut out, self.0.instance, Radix::Decimal);
        out.push(AT);
        out.push(ZERO);
        proof {
            assert(out@ =~= self.text());
            lemma_numeral_ascii(self.0.type_ as nat, Radix::Decimal);
            lemma_numeral_ascii(self.0.instance as nat, Radix::Decimal);
        }
        ascii_string(out)
    }

    /// What a text says as a service address: the type in decimal, `:`, the
    /// instance in decimal. An `@` ends the instance; what stands behind it is
    /// passed over.
    pub open spec fn parsed(text: Seq<u8>) -> Result<ServiceAddr, AddrParseError> {
        match numeral_value(before(text, COLON), Radix::Decimal) {
            Err(e) => Err(AddrParseError::InvalidType(e)),
            Ok(ty) => match after(text, COLON) {
                None => Err(AddrParseError::MissingInstance),
                Some(rest) => match numeral_value(before(rest, AT), Radix::Decimal) {
                    Err(e) => Err(AddrParseError::InvalidInstance(e)),
                    Ok(instance) => Ok(ServiceAddr::spec_new(ty, instance)),
                },
            },
        }
    }

    /// Reads a service address from its text form.
    pub fn parse(s: &str) -> (r: Result<ServiceAddr, AddrParseError>)
        ensures
            r == Self::parsed(s.spec_bytes()),
    {
        let (head, rest) = split_once(s.as_bytes(), COLON);
        let ty = match parse_u32(head, Radix::Decimal) {
            Err(e) => {
                return Err(AddrParseError::InvalidType(e));
            },
            Ok(ty) => ty,
        };
        let rest = match rest {
            None => {
                return Err(AddrParseError::MissingInstance);
            },
            Some(rest) => rest,
        };
        let (head, _) = split_once(rest, AT);
        match parse_u32(head, Radix::Decimal) {
            Err(e) => Err(AddrParseError::InvalidInstance(e)),
            Ok(instance) => Ok(ServiceAddr::new(ty, instance)),
        }
    }
}

impl ServiceRange {
    pub open spec fn spec_new(ty: Type, lower: Instance, upper: Instance) -> Self {
        ServiceRange(tipc_name_seq { type_: ty, lower, upper })
    }

    pub open spec fn spec_ty(&self) -> Type {
        self.0.type_
    }

    pub open spec fn spec_lower(&self) -> Instance {
        self.0.lower
    }

    pub open spec fn spec_upper(&self) -> Instance {
        self.0.upper
    }

    /// The range holds an instance at all: its lower end is not above its upper end.
    pub open spec fn wf(&self) -> bool {
        self.0.lower <= self.0.upper
    }

    /// The instance lies in the range.
    pub open spec fn contains(&self, instance: Instance) -> bool {
        self.0.lower <= instance <= self.0.upper
    }

    /// The range of the instances of `ty` from `lower` to `upper`.
    #[verifier::when_used_as_spec(spec_new)]
    pub fn new(ty: Type, lower: Instance, upper: Instance) -> (r: Self)
        ensures
            r == Self::spec_new(ty, lower, upper),
    {
        ServiceRange(tipc_name_seq { type_: ty, lower, upper })
    }

    /// The type identifier.
    #[verifier::when_used_as_spec(spec_ty)]
    pub fn ty(&self) -> (r: Type)
        ensures
            r == self.spec_ty(),
    {
        self.0.type_
    }

    /// The lowest instance.
    #[verifier::when_used_as_spec(spec_lower)]
    pub fn lower(&self) -> (r: Instance)
        ensures
            r == self.spec_lower(),
    {
        self.0.lower
    }

    /// The highest instance.
    #[verifier::when_used_as_spec(spec_upper)]
    pub fn upper(&self) -> (r: Instance)
        ensures
            r == self.spec_upper(),
    {
        self.0.upper
    }

    /// Every instance of the type.
    pub fn with_type(ty: Type) -> (r: Self)
        ensures
            r == Self::spec_new(ty, 0, u32::MAX),
            r.wf(),
            forall|i: Instance| r.contains(i),
    {
        ServiceRange(tipc_name_seq { type_: ty, lower: u32::MIN, upper: u32::MAX })
    }

    /// The instances of the type that `range` names, from its lower to its upper end.
    pub fn with_range<T: ToInstanceRange>(ty: Type, range: T) -> (r: Self)
        ensures
            r == Self::spec_new(ty, range.spec_lower(), range.spec_upper()),
    {
        ServiceRange(tipc_name_seq { type_: ty, lower: range.lower(), upper: range.upper() })
    }

    /// The text form: type, `:`, lower, `:`, upper, all in decimal, then `@0`.
    pub open spec fn text(self) -> Seq<u8> {
        numeral(self.spec_ty() as nat, Radix::Decimal) + seq![COLON] + numeral(
            self.spec_lower() as nat,
            Radix::Decimal,
        ) + seq![COLON] + numeral(self.spec_upper() as nat, Radix::Decimal) + seq![AT, ZERO]
    }

    /// The text form as a string.
    pub fn to_string(&self) -> (r: String)
        ensures
            encode_utf8(r@) == self.text(),
    {
        let mut out: Vec<u8> = Vec::new();
        push_numeral(&mut out, self.0.type_, Radix::Decimal);
        out.push(COLON);
        push_numeral(&mut out, self.0.lower, Radix::Decimal);
        out.push(COLON);
        push_numeral(&mut out, self.0.upper, Radix::Decimal);
        out.push(AT);
        out.push(ZERO);
        proof {
            assert(out@ =~= self.text());
            lemma_numeral_ascii(self.0.type_ as nat, Radix::Decimal);
            lemma_numeral_ascii(self.0.lower as nat, Radix::Decimal);
            lemma_numeral_ascii(self.0.upper as nat, Radix::Decimal);
        }
        ascii_string(out)
    }

    /// What a text says as a service range: type, `:`, lower, `:`, upper, all
    /// in decimal. An `@` ends the upper instance; what stands behind it is
    /// passed over. The two ends are taken as they stand, in either order.
    pub open spec fn parsed(text: Seq<u8>) -> Result<ServiceRange, AddrParseError> {
        match numeral_value(before(text, COLON), Radix::Decimal) {
            Err(e) => Err(AddrParseError::InvalidType(e)),
            Ok(ty) => match after(text, COLON) {
                None => Err(AddrParseError::MissingInstance),
                Some(rest) => match numeral_value(before(rest, COLON), Radix::Decimal) {
                    Err(e) => Err(AddrParseError::InvalidInstance(e)),
                    Ok(lower) => match after(rest, COLON) {
                        None => Err(AddrParseError::MissingInstance),
                        Some(last) => match numeral_value(before(last, AT), Radix::Decimal) {
                            Err(e) => Err(AddrParseError::InvalidInstance(e)),
                            Ok(upper) => Ok(ServiceRange::spec_new(ty, lower, upper)),
                        },
                    },
                },
            },
        }
    }

    /// Reads a service range from its text form.
    pub fn parse(s: &str) -> (r: Result<ServiceRange, AddrParseError>)
        ensures
            r == Self::parsed(s.spec_bytes()),
    {
        let (head, rest) = split_once(s.as_bytes(), COLON);
        let ty = match parse_u32(head, Radix::Decimal) {
            Err(e) => {
                return Err(AddrParseError::InvalidType(e));
            },
            Ok(ty) => ty,
        };
        let rest = match rest {
            None => {
                return Err(AddrParseError::MissingInstance);
            },
            Some(rest) => rest,
        };
        let (head, last) = split_once(rest, COLON);
        let lower = match parse_u32(head, Radix::Decimal) {
            Err(e) => {
                return Err(AddrParseError::InvalidInstance(e));
            },
            Ok(lower) => lower,
        };
        let last = match last {
            None => {
                return Err(AddrParseError::MissingInstance);
            },
            Some(last) => last,
        };
        let (head, _) = split_once(last, AT);
        match parse_u32(head, Radix::Decimal) {
            Err(e) => Err(AddrParseError::InvalidInstance(e)),
            Ok(upper) => Ok(ServiceRange::new(ty, lower, upper)),
        }
    }
}

impl FromStr for SocketAddr {
    type Err = AddrParseError;

    /// Reads the address from its text form, as `parse` does.
    fn from_str(s: &str) -> (r: Result<Self, AddrParseError>)
        ensures
            r == SocketAddr::parsed(s.spec_bytes()),
    {
        SocketAddr::parse(s)
    }
}

impl FromStr for ServiceAddr {
    type Err = AddrParseError;

    /// Reads the address from its text form, as `parse` does.
    fn from_str(s: &str) -> (r: Result<Self, AddrParseError>)
        ensures
            r == ServiceAddr::parsed(s.spec_bytes()),
    {
        ServiceAddr::parse(s)
    }
}

impl FromStr for ServiceRange {
    type Err = AddrParseError;

    /// Reads the address from its text form, as `parse` does.
    fn from_str(s: &str) -> (r: Result<Self, AddrParseError>)
        ensures
            r == ServiceRange::parsed(s.spec_bytes()),
    {
        ServiceRange::parse(s)
    }
}

/// The text form of a socket address is read back as that address.
pub proof fn lemma_socket_addr_round_trip(a: SocketAddr)
    ensures
        SocketAddr::parsed(a.text()) == Ok::<SocketAddr, AddrParseError>(a),
{
    let port = padded(a.spec_port() as nat, 10);
    let node = numeral(a.spec_node() as nat, Radix::Hexadecimal);
    let rest = port.push(AT) + node;
    assert(a.text() =~= seq![ZERO].push(COLON) + rest);
    lemma_split_joined(seq![ZERO], COLON, rest);
    lemma_padded_value(a.0.ref_, 10);
    lemma_digits_hold_no(port, Radix::Decimal, AT);
    lemma_split_joined(port, AT, node);
    lemma_numeral_value(a.0.node, Radix::Hexadecimal);
}

/// The text form of a service address is read back as that address.
pub proof fn lemma_service_addr_round_trip(a: ServiceAddr)
    ensures
        ServiceAddr::parsed(a.text()) == Ok::<ServiceAddr, AddrParseError>(a),
{
    let ty = numeral(a.spec_ty() as nat, Radix::Decimal);
    let instance = numeral(a.spec_instance() as nat, Radix::Decimal);
    let rest = instance.push(AT) + seq![ZERO];
    assert(a.text() =~= ty.push(COLON) + rest);
    lemma_numeral_digits(a.spec_ty() as nat, Radix::Decimal);
    lemma_numeral_digits(a.spec_instance() as nat, Radix::Decimal);
    lemma_digits_hold_no(ty, Radix::Decimal, COLON);
    lemma_split_joined(ty, COLON, rest);
    lemma_digits_hold_no(instance, Radix::Decimal, AT);
    lemma_split_joined(instance, AT, seq![ZERO]);
    lemma_numeral_value(a.0.type_, Radix::Decimal);
    lemma_numeral_value(a.0.instance, Radix::Decimal);
}

/// The text form of a service range is read back as that range. This holds
/// of every triple, whichever of its two ends is the greater.
pub proof fn lemma_service_range_round_trip(a: ServiceRange)
    ensures
        ServiceRange::parsed(a.text()) == Ok::<ServiceRange, AddrParseError>(a),
{
    let ty = numeral(a.spec_ty() as nat, Radix::Decimal);
    let lower = numeral(a.spec_lower() as nat, Radix::Decimal);
    let upper = numeral(a.spec_upper() as nat, Radix::Decimal);
    let last = upper.push(AT) + seq![ZERO];
    let rest = lower.push(COLON) + last;
    assert(a.text() =~= ty.push(COLON) + rest);
    lemma_numeral_digits(a.spec_ty() as nat, Radix::Decimal);
    lemma_numeral_digits(a.spec_lower() as nat, Radix::Decimal);
    lemma_numeral_digits(a.spec_upper() as nat, Radix::Decimal);
    lemma_digits_hold_no(ty, Radix::Decimal, COLON);
    lemma_split_joined(ty, COLON, rest);
    lemma_digits_hold_no(lower, Radix::Decimal, COLON);
    lemma_split_joined(lower, COLON, last);
    lemma_digits_hold_no(upper, Radix::Decimal, AT);
    lemma_split_joined(upper, AT, seq![ZERO]);
    lemma_numeral_value(a.0.type_, Radix::Decimal);
    lemma_numeral_value(a.0.lower, Radix::Decimal);
    lemma_numeral_value(a.0.upper, Radix::Decimal);
}

/// What can be read as one or more instances: one instance, or a range with
/// its lower and upper end.
pub trait ToInstanceRange {
    spec fn spec_lower(&self) -> Instance;

    spec fn spec_upper(&self) -> Instance;

    fn lower(&self) -> (r: Instance)
        ensures
            r == self.spec_lower(),
    ;

    fn upper(&self) -> (r: Instance)
        ensures
            r == self.spec_upper(),
    ;
}

/// One instance is the range from itself to itself.
impl ToInstanceRange for Instance {
    open spec fn spec_lower(&self) -> Instance {
        *self
    }

    open spec fn spec_upper(&self) -> Instance {
        *self
    }

    fn lower(&self) -> (r: Instance) {
        *self
    }

    fn upper(&self) -> (r: Instance) {
        *self
    }
}

/// `a..b` names the instances from `a` to `b`, `b` included.
impl ToInstanceRange for Range<Instance> {
    open spec fn spec_lower(&self) -> Instance {
        self.start
    }

    open spec fn spec_upper(&self) -> Instance {
        self.end
    }

    fn lower(&self) -> (r: Instance) {
        self.start
    }

    fn upper(&self) -> (r: Instance) {
        self.end
    }
}

/// `..b` names the instances up to `b`, `b` included.
impl ToInstanceRange for RangeTo<Instance> {
    open spec fn spec_lower(&self) -> Instance {
        0
    }

    open spec fn spec_upper(&self) -> Instance {
        self.end
    }

    fn lower(&self) -> (r: Instance) {
        u32::MIN
    }

    fn upper(&self) -> (r: Instance) {
        self.end
    }
}

/// `a..` names the instances from `a` on.
impl ToInstanceRange for RangeFrom<Instance> {
    open spec fn spec_lower(&self) -> Instance {
        self.start
    }

    open spec fn spec_upper(&self) -> Instance {
        u32::MAX
    }

    fn lower(&self) -> (r: Instance) {
        self.start
    }

    fn upper(&self) -> (r: Instance) {
        u32::MAX
    }
}

/// `..` names every instance.
impl ToInstanceRange for RangeFull {
    open spec fn spec_lower(&self) -> Instance {
        0
    }

    open spec fn spec_upper(&self) -> Instance {
        u32::MAX
    }

    fn lower(&self) -> (r: Instance) {
        u32::MIN
    }

    fn upper(&self) -> (r: Instance) {
        u32::MAX
    }
}

/// A `u32` that is not zero.
#[derive(Clone, Copy, Debug, Hash, PartialEq, Eq, PartialOrd, Ord, Structural)]
pub struct NonZeroU32(u32);

impl View for NonZeroU32 {
    type V = u32;

    closed spec fn view(&self) -> u32 {
        self.0
    }
}

impl NonZeroU32 {
    #[verifier::type_invariant]
    spec fn is_not_zero(self) -> bool {
        self.0 != 0
    }

    /// `n`, unless it is zero.
    pub fn new(n: u32) -> (r: Option<Self>)
        ensures
            n == 0 ==> r is None,
            n != 0 ==> r is Some && r->Some_0@ == n,
    {
        if n == 0 {
            None
        } else {
            Some(NonZeroU32(n))
        }
    }

    /// The number.
    pub fn get(self) -> (r: u32)
        ensures
            r == self@,
            r != 0,
    {
        proof {
            use_type_invariant(&self);
        }
        self.0
    }

    /// Two of them that hold the same number are the same.
    pub proof fn lemma_same(a: NonZeroU32, b: NonZeroU32)
        requires
            a@ == b@,
        ensures
            a == b,
    {
    }
}

/// Where a service is looked up: in the whole cluster, or on one node.
#[derive(Clone, Copy, Debug, PartialEq, Eq, Hash, Structural)]
pub enum Scope {
    /// Cluster global.
    Global,
    /// Node local.
    Node(NonZeroU32),
}

impl Scope {
    /// The node of the scope is a node: it is not zero.
    pub open spec fn wf(self) -> bool {
        self matches Scope::Node(n) ==> n@ != 0
    }

    /// The scope as a number: the node, or zero for the whole cluster.
    pub open spec fn domain(self) -> u32 {
        match self {
            Scope::Global => 0,
            Scope::Node(n) => n@,
        }
    }

    /// The scope that the number `node` stands for: the whole cluster for
    /// zero, and the node for any other number.
    pub closed spec fn spec_new(node: u32) -> Scope {
        if node == 0 {
            Scope::Global
        } else {
            Scope::Node(NonZeroU32(node))
        }
    }

    /// The scope of a number is well formed and is that number again.
    pub proof fn lemma_new(node: u32)
        ensures
            Self::spec_new(node).wf(),
            Self::spec_new(node).domain() == node,
            node == 0 <==> Self::spec_new(node) is Global,
    {
    }

    /// The scope of the node `node`; the whole cluster where `node` is zero.
    #[verifier::when_used_as_spec(spec_new)]
    pub fn new(node: u32) -> (r: Self)
        ensures
            r == Self::spec_new(node),
            r.wf(),
            r.domain() == node,
            node == 0 <==> r is Global,
    {
        match NonZeroU32::new(node) {
            None => Scope::Global,
            Some(n) => Scope::Node(n),
        }
    }

    /// The scope as a number: the node, or zero for the whole cluster.
    pub fn as_u32(self) -> (r: u32)
        ensures
            r == self.domain(),
            self is Node ==> r != 0,
    {
        match self {
            Scope::Global => 0,
            Scope::Node(n) => n.get(),
        }
    }

    /// Two well-formed scopes that are the same number are the same scope.
    pub proof fn lemma_same(a: Scope, b: Scope)
        requires
            a.wf(),
            b.wf(),
            a.domain() == b.domain(),
        ensures
            a == b,
    {
        if let Scope::Node(n) = a {
            if let Scope::Node(m) = b {
                NonZeroU32::lemma_same(n, m);
            }
        }
    }

    /// Whether the scope is the node `own_node`, the node this process runs on.
    pub fn is_own_node(self, own_node: u32) -> (r: bool)
        ensures
            r == (self is Node && self.domain() == own_node),
    {
        match self {
            Scope::Node(n) => n.get() == own_node,
            Scope::Global => false,
        }
    }

    /// The visibility that goes with the scope: the own node alone where the
    /// scope is the node `own_node`, the cluster in every other case.
    pub fn visibility(self, own_node: u32) -> (r: Visibility)
        ensures
            r == (if self is Node && self.domain() == own_node {
                Visibility::Node
            } else {
                Visibility::Cluster
            }),
    {
        if self.is_own_node(own_node) {
            Visibility::Node
        } else {
            Visibility::Cluster
        }
    }
}

/// How far a binding is seen.
#[derive(Clone, Copy, Debug, PartialEq, Eq, Hash, Structural)]
pub enum Visibility {
    /// Within the whole own zone.
    Zone,
    /// Within the whole own cluster.
    Cluster,
    /// On the own node only.
    Node,
}

impl Default for Visibility {
    fn default() -> (r: Self)
        ensures
            r == Visibility::Cluster,
    {
        Visibility::Cluster
    }
}

impl Visibility {
    /// The number the kernel knows the visibility by.
    pub open spec fn value(self) -> int {
        match self {
            Visibility::Zone => 1,
            Visibility::Cluster => 2,
            Visibility::Node => 3,
        }
    }

    /// The number as the scope field of a socket address holds it.
    pub fn as_i8(self) -> (r: i8)
        ensures
            r == self.value(),
    {
        match self {
            Visibility::Zone => 1,
            Visibility::Cluster => 2,
            Visibility::Node => 3,
        }
    }

    /// The number as a group request holds it.
    pub fn as_u32(self) -> (r: u32)
        ensures
            r == self.value(),
    {
        match self {
            Visibility::Zone => 1,
            Visibility::Cluster => 2,
            Visibility::Node => 3,
        }
    }
}

impl PartialEq<u32> for Scope {
    fn eq(&self, other: &u32) -> (r: bool) {
        self.as_u32() == *other
    }
}

/// A scope is equal to the number it stands for: a node to its number, the
/// whole cluster to zero.
impl PartialEqSpecImpl<u32> for Scope {
    open spec fn obeys_eq_spec() -> bool {
        true
    }

    open spec fn eq_spec(&self, other: &u32) -> bool {
        self.domain() == *other
    }
}

impl From<u32> for Scope {
    fn from(node: u32) -> (r: Scope) {
        Scope::new(node)
    }
}

impl FromSpecImpl<u32> for Scope {
    open spec fn obeys_from_spec() -> bool {
        true
    }

    open spec fn from_spec(node: u32) -> Scope {
        Scope::spec_new(node)
    }
}

impl From<Scope> for u32 {
    fn from(scope: Scope) -> (r: u32) {
        scope.as_u32()
    }
}

impl FromSpecImpl<Scope> for u32 {
    open spec fn obeys_from_spec() -> bool {
        true
    }

    open spec fn from_spec(scope: Scope) -> u32 {
        scope.domain()
    }
}

impl From<(u32, u32)> for SocketAddr {
    fn from(pair: (u32, u32)) -> (r: Self) {
        SocketAddr::new(pair.0, pair.1)
    }
}

impl FromSpecImpl<(u32, u32)> for SocketAddr {
    open spec fn obeys_from_spec() -> bool {
        true
    }

    open spec fn from_spec(pair: (u32, u32)) -> Self {
        SocketAddr::spec_new(pair.0, pair.1)
    }
}

impl From<tipc_portid> for SocketAddr {
    fn from(addr: tipc_portid) -> (r: Self) {
        SocketAddr(addr)
    }
}

impl FromSpecImpl<tipc_portid> for SocketAddr {
    open spec fn obeys_from_spec() -> bool {
        true
    }

    open spec fn from_spec(addr: tipc_portid) -> Self {
        SocketAddr(addr)
    }
}

impl From<SocketAddr> for tipc_portid {
    fn from(addr: SocketAddr) -> (r: Self) {
        addr.0
    }
}

impl FromSpecImpl<SocketAddr> for tipc_portid {
    open spec fn obeys_from_spec() -> bool {
        true
    }

    open spec fn from_spec(addr: SocketAddr) -> Self {
        addr.0
    }
}

impl From<(Type, Instance)> for ServiceAddr {
    fn from(pair: (Type, Instance)) -> (r: Self) {
        ServiceAddr::new(pair.0, pair.1)
    }
}

impl FromSpecImpl<(Type, Instance)> for ServiceAddr {
    open spec fn obeys_from_spec() -> bool {
        true
    }

    open spec fn from_spec(pair: (Type, Instance)) -> Self {
        ServiceAddr::spec_new(pair.0, pair.1)
    }
}

impl From<tipc_name> for ServiceAddr {
    fn from(addr: tipc_name) -> (r: Self) {
        ServiceAddr(addr)
    }
}

impl FromSpecImpl<tipc_name> for ServiceAddr {
    open spec fn obeys_from_spec() -> bool {
        true
    }

    open spec fn from_spec(addr: tipc_name) -> Self {
        ServiceAddr(addr)
    }
}

impl From<ServiceAddr> for tipc_name {
    fn from(addr: ServiceAddr) -> (r: Self) {
        addr.0
    }
}

impl FromSpecImpl<ServiceAddr> for tipc_name {
    open spec fn obeys_from_spec() -> bool {
        true
    }

    open spec fn from_spec(addr: ServiceAddr) -> Self {
        addr.0
    }
}

impl From<(Type, Instance, Instance)> for ServiceRange {
    fn from(triple: (Type, Instance, Instance)) -> (r: Self) {
        ServiceRange::new(triple.0, triple.1, triple.2)
    }
}

impl FromSpecImpl<(Type, Instance, Instance)> for ServiceRange {
    open spec fn obeys_from_spec() -> bool {
        true
    }

    open spec fn from_spec(triple: (Type, Instance, Instance)) -> Self {
        ServiceRange::spec_new(triple.0, triple.1, triple.2)
    }
}

impl From<tipc_name_seq> for ServiceRange {
    fn from(addr: tipc_name_seq) -> (r: Self) {
        ServiceRange(addr)
    }
}

impl FromSpecImpl<tipc_name_seq> for ServiceRange {
    open spec fn obeys_from_spec() -> bool {
        true
    }

    open spec fn from_spec(addr: tipc_name_seq) -> Self {
        ServiceRange(addr)
    }
}

impl From<ServiceRange> for tipc_name_seq {
    fn from(addr: ServiceRange) -> (r: Self) {
        addr.0
    }
}

impl FromSpecImpl<ServiceRange> for tipc_name_seq {
    open spec fn obeys_from_spec() -> bool {
        true
    }

    open spec fn from_spec(addr: ServiceRange) -> Self {
        addr.0
    }
}

/// A bare type stands for every instance of it.
impl From<Type> for ServiceRange {
    fn from(ty: Type) -> (r: Self) {
        ServiceRange::with_type(ty)
    }
}

impl FromSpecImpl<Type> for ServiceRange {
    open spec fn obeys_from_spec() -> bool {
        true
    }

    open spec fn from_spec(ty: Type) -> Self {
        ServiceRange::spec_new(ty, 0, u32::MAX)
    }
}

/// A service is the range that holds its instance and no other.
impl From<ServiceAddr> for ServiceRange {
    fn from(service: ServiceAddr) -> (r: Self) {
        ServiceRange::new(service.0.type_, service.0.instance, service.0.instance)
    }
}

impl FromSpecImpl<ServiceAddr> for ServiceRange {
    open spec fn obeys_from_spec() -> bool {
        true
    }

    open spec fn from_spec(service: ServiceAddr) -> Self {
        ServiceRange::spec_new(service.0.type_, service.0.instance, service.0.instance)
    }
}

/// A type with one instance, or with a range of instances.
impl<T: ToInstanceRange> From<(Type, T)> for ServiceRange {
    fn from(pair: (Type, T)) -> (r: Self) {
        ServiceRange::with_range(pair.0, pair.1)
    }
}

impl<T: ToInstanceRange> FromSpecImpl<(Type, T)> for ServiceRange {
    open spec fn obeys_from_spec() -> bool {
        true
    }

    open spec fn from_spec(pair: (Type, T)) -> Self {
        ServiceRange::spec_new(pair.0, pair.1.spec_lower(), pair.1.spec_upper())
    }
}

impl SocketAddr {
    /// The kernel address of the socket: its port and node in the union, and
    /// nothing else set.
    pub open spec fn sockaddr(self) -> sockaddr_tipc {
        sockaddr_tipc {
            family: AF_TIPC as u16,
            addrtype: TIPC_SOCKET_ADDR,
            scope: 0,
            addr: [self.0.ref_, self.0.node, 0],
        }
    }
}

impl ServiceAddr {
    /// The kernel address of the service, looked up in `scope`: type and
    /// instance in the union, and the scope as its domain.
    pub open spec fn sockaddr(self, scope: Scope) -> sockaddr_tipc {
        sockaddr_tipc {
            family: AF_TIPC as u16,
            addrtype: TIPC_SERVICE_ADDR,
            scope: 0,
            addr: [self.0.type_, self.0.instance, scope.domain()],
        }
    }
}

impl ServiceRange {
    /// The kernel address of the range, bound with `visibility`: type, lower
    /// and upper in the union, and the visibility in the scope field.
    pub open spec fn sockaddr(self, visibility: Visibility) -> sockaddr_tipc {
        sockaddr_tipc {
            family: AF_TIPC as u16,
            addrtype: TIPC_SERVICE_RANGE,
            scope: visibility.value() as i8,
            addr: [self.0.type_, self.0.lower, self.0.upper],
        }
    }
}

impl From<SocketAddr> for sockaddr_tipc {
    fn from(addr: SocketAddr) -> (r: sockaddr_tipc) {
        sockaddr_tipc {
            family: AF_TIPC as u16,
            addrtype: TIPC_SOCKET_ADDR,
            scope: 0,
            addr: [addr.0.ref_, addr.0.node, 0],
        }
    }
}

impl FromSpecImpl<SocketAddr> for sockaddr_tipc {
    open spec fn obeys_from_spec() -> bool {
        true
    }

    open spec fn from_spec(addr: SocketAddr) -> sockaddr_tipc {
        addr.sockaddr()
    }
}

impl From<(ServiceAddr, Scope)> for sockaddr_tipc {
    fn from(pair: (ServiceAddr, Scope)) -> (r: sockaddr_tipc) {
        sockaddr_tipc {
            family: AF_TIPC as u16,
            addrtype: TIPC_SERVICE_ADDR,
            scope: 0,
            addr: [pair.0.0.type_, pair.0.0.instance, pair.1.as_u32()],
        }
    }
}

impl FromSpecImpl<(ServiceAddr, Scope)> for sockaddr_tipc {
    open spec fn obeys_from_spec() -> bool {
        true
    }

    open spec fn from_spec(pair: (ServiceAddr, Scope)) -> sockaddr_tipc {
        pair.0.sockaddr(pair.1)
    }
}

/// A service with no scope is looked up in the whole cluster.
impl From<ServiceAddr> for sockaddr_tipc {
    fn from(addr: ServiceAddr) -> (r: sockaddr_tipc) {
        sockaddr_tipc::from((addr, Scope::Global))
    }
}

impl FromSpecImpl<ServiceAddr> for sockaddr_tipc {
    open spec fn obeys_from_spec() -> bool {
        true
    }

    open spec fn from_spec(addr: ServiceAddr) -> sockaddr_tipc {
        addr.sockaddr(Scope::Global)
    }
}

impl From<(ServiceRange, Visibility)> for sockaddr_tipc {
    fn from(pair: (ServiceRange, Visibility)) -> (r: sockaddr_tipc) {
        sockaddr_tipc {
            family: AF_TIPC as u16,
            addrtype: TIPC_SERVICE_RANGE,
            scope: pair.1.as_i8(),
            addr: [pair.0.0.type_, pair.0.0.lower, pair.0.0.upper],
        }
    }
}

impl FromSpecImpl<(ServiceRange, Visibility)> for sockaddr_tipc {
    open spec fn obeys_from_spec() -> bool {
        true
    }

    open spec fn from_spec(pair: (ServiceRange, Visibility)) -> sockaddr_tipc {
        pair.0.sockaddr(pair.1)
    }
}

/// A range with no visibility is seen in the whole cluster.
impl From<ServiceRange> for sockaddr_tipc {
    fn from(addr: ServiceRange) -> (r: sockaddr_tipc) {
        sockaddr_tipc::from((addr, Visibility::Cluster))
    }
}

impl FromSpecImpl<ServiceRange> for sockaddr_tipc {
    open spec fn obeys_from_spec() -> bool {
        true
    }

    open spec fn from_spec(addr: ServiceRange) -> sockaddr_tipc {
        addr.sockaddr(Visibility::Cluster)
    }
}

/// The kernel address of a service is of the family, says that it holds a
/// service, and holds that service's type and instance as its name, with the
/// scope as the domain.
pub proof fn lemma_service_addr_marshal(service: ServiceAddr, scope: Scope)
    ensures
        service.sockaddr(scope).family == 30,
        service.sockaddr(scope).addrtype == TIPC_SERVICE_ADDR,
        service.sockaddr(scope).spec_name().name == service.0,
        service.sockaddr(scope).spec_name().domain == scope.domain(),
        ServiceAddr(service.sockaddr(scope).spec_name().name) == service,
{
}

/// The kernel address of a socket is of the family, says that it holds a
/// socket, and holds that socket's port and node.
pub proof fn lemma_socket_addr_marshal(addr: SocketAddr)
    ensures
        addr.sockaddr().family == 30,
        addr.sockaddr().addrtype == TIPC_SOCKET_ADDR,
        SocketAddr(addr.sockaddr().spec_id()) == addr,
{
}

/// The kernel address of a range is of the family, says that it holds a
/// range, which is also what marks a multicast, and holds that range's type
/// and ends, with the visibility as the scope.
pub proof fn lemma_service_range_marshal(range: ServiceRange, visibility: Visibility)
    ensures
        range.sockaddr(visibility).family == 30,
        range.sockaddr(visibility).addrtype == TIPC_SERVICE_RANGE,
        range.sockaddr(visibility).addrtype == TIPC_ADDR_MCAST,
        range.sockaddr(visibility).scope == visibility.value(),
        ServiceRange(range.sockaddr(visibility).spec_nameseq()) == range,
{
}

} // verus!
