//! The kernel's side of TIPC: its numbers, and its records as plain values.
//!
//! A record here holds what the kernel structure of the same name holds, field
//! by field. The union inside `sockaddr_tipc` is held as its three words, with
//! one reading for each of its members.

#![allow(non_camel_case_types)]

use vstd::prelude::*;

verus! {

pub const TIPC_NODE_BITS: u32 = 12;

pub const TIPC_CLUSTER_BITS: u32 = 12;

pub const TIPC_ZONE_BITS: u32 = 8;

pub const TIPC_NODE_OFFSET: u32 = 0;

pub const TIPC_CLUSTER_OFFSET: u32 = 12;

pub const TIPC_ZONE_OFFSET: u32 = 24;

pub const TIPC_NODE_SIZE: u32 = 4095;

pub const TIPC_CLUSTER_SIZE: u32 = 4095;

pub const TIPC_ZONE_SIZE: u32 = 255;

pub const TIPC_NODE_MASK: u32 = 4095;

pub const TIPC_CLUSTER_MASK: u32 = 16773120;

pub const TIPC_ZONE_MASK: u32 = 4278190080;

pub const TIPC_ZONE_CLUSTER_MASK: u32 = 4294963200;

pub const TIPC_CFG_SRV: u32 = 0;

pub const TIPC_TOP_SRV: u32 = 1;

pub const TIPC_LINK_STATE: u32 = 2;

pub const TIPC_RESERVED_TYPES: u32 = 64;

pub const TIPC_ZONE_SCOPE: u32 = 1;

pub const TIPC_CLUSTER_SCOPE: u32 = 2;

pub const TIPC_NODE_SCOPE: u32 = 3;

pub const TIPC_MAX_USER_MSG_SIZE: u32 = 66000;

pub const TIPC_LOW_IMPORTANCE: u32 = 0;

pub const TIPC_MEDIUM_IMPORTANCE: u32 = 1;

pub const TIPC_HIGH_IMPORTANCE: u32 = 2;

pub const TIPC_CRITICAL_IMPORTANCE: u32 = 3;

pub const TIPC_OK: u32 = 0;

pub const TIPC_ERR_NO_NAME: u32 = 1;

pub const TIPC_ERR_NO_PORT: u32 = 2;

pub const TIPC_ERR_NO_NODE: u32 = 3;

pub const TIPC_ERR_OVERLOAD: u32 = 4;

pub const TIPC_CONN_SHUTDOWN: u32 = 5;

pub const TIPC_SUB_PORTS: u32 = 1;

pub const TIPC_SUB_SERVICE: u32 = 2;

pub const TIPC_SUB_CANCEL: u32 = 4;

pub const TIPC_WAIT_FOREVER: i32 = -1;

pub const TIPC_PUBLISHED: u32 = 1;

pub const TIPC_WITHDRAWN: u32 = 2;

pub const TIPC_SUBSCR_TIMEOUT: u32 = 3;

pub const AF_TIPC: u32 = 30;

pub const PF_TIPC: u32 = 30;

pub const SOL_TIPC: u32 = 271;

pub const TIPC_ADDR_NAMESEQ: u32 = 1;

pub const TIPC_ADDR_MCAST: u32 = 1;

pub const TIPC_ADDR_NAME: u32 = 2;

pub const TIPC_ADDR_ID: u32 = 3;

pub const TIPC_ERRINFO: u32 = 1;

pub const TIPC_RETDATA: u32 = 2;

pub const TIPC_DESTNAME: u32 = 3;

pub const TIPC_IMPORTANCE: u32 = 127;

pub const TIPC_SRC_DROPPABLE: u32 = 128;

pub const TIPC_DEST_DROPPABLE: u32 = 129;

pub const TIPC_CONN_TIMEOUT: u32 = 130;

pub const TIPC_NODE_RECVQ_DEPTH: u32 = 131;

pub const TIPC_SOCK_RECVQ_DEPTH: u32 = 132;

pub const TIPC_MCAST_BROADCAST: u32 = 133;

pub const TIPC_MCAST_REPLICAST: u32 = 134;

pub const TIPC_GROUP_JOIN: u32 = 135;

pub const TIPC_GROUP_LEAVE: u32 = 136;

pub const TIPC_GROUP_LOOPBACK: u32 = 1;

pub const TIPC_GROUP_MEMBER_EVTS: u32 = 2;

pub const TIPC_MAX_MEDIA_NAME: u32 = 16;

pub const TIPC_MAX_IF_NAME: u32 = 16;

pub const TIPC_MAX_BEARER_NAME: u32 = 32;

pub const TIPC_MAX_LINK_NAME: u32 = 60;

pub const TIPC_NODEID_LEN: usize = 16;

pub const SIOCPROTOPRIVATE: u32 = 35296;

pub const SIOCGETLINKNAME: u32 = 35296;

pub const SIOCGETNODEID: u32 = 35297;

/// The flags of a message. They are the kernel's own numbers and the same
/// on every target that has the family.
pub const MSG_OOB: i32 = 1;

pub const MSG_PEEK: i32 = 2;

pub const MSG_DONTWAIT: i32 = 64;

pub const MSG_EOR: i32 = 128;

pub const MSG_WAITALL: i32 = 256;

/// The sizes of the records, in bytes.
pub const SOCKADDR_TIPC_SIZE: usize = 16;

pub const TIPC_SUBSCR_SIZE: usize = 28;

pub const TIPC_EVENT_SIZE: usize = 48;

pub const TIPC_NAME_SEQ_SIZE: usize = 12;

pub const TIPC_GROUP_REQ_SIZE: usize = 16;

/// A socket: its reference on its node, and the node.
#[derive(Clone, Copy, Debug, Hash, PartialEq, Eq, PartialOrd, Ord, Structural)]
pub struct tipc_portid {
    pub ref_: u32,
    pub node: u32,
}

/// A service: type and instance.
#[derive(Clone, Copy, Debug, Hash, PartialEq, Eq, PartialOrd, Ord, Structural)]
pub struct tipc_name {
    pub type_: u32,
    pub instance: u32,
}

/// A range of services of one type.
#[derive(Clone, Copy, Debug, Hash, PartialEq, Eq, PartialOrd, Ord, Structural)]
pub struct tipc_name_seq {
    pub type_: u32,
    pub lower: u32,
    pub upper: u32,
}

/// A subscription as the topology service takes it.
#[derive(Clone, Copy, Debug, Hash, PartialEq, Eq)]
pub struct tipc_subscr {
    pub seq: tipc_name_seq,
    pub timeout: u32,
    pub filter: u32,
    pub usr_handle: [u8; 8],
}

/// An event as the topology service sends it.
#[derive(Clone, Copy, Debug, Hash, PartialEq, Eq)]
pub struct tipc_event {
    pub event: u32,
    pub found_lower: u32,
    pub found_upper: u32,
    pub port: tipc_portid,
    pub s: tipc_subscr,
}

/// A service with the domain in which it is looked up: the `name` member of
/// the address union.
#[derive(Clone, Copy, Debug, Hash, PartialEq, Eq, PartialOrd, Ord, Structural)]
pub struct tipc_name_domain {
    pub name: tipc_name,
    pub domain: u32,
}

/// A socket address of the family.
#[derive(Clone, Copy, Debug, Hash, PartialEq, Eq)]
pub struct sockaddr_tipc {
    pub family: u16,
    pub addrtype: u8,
    pub scope: i8,
    /// The three words of the union.
    pub addr: [u32; 3],
}

impl sockaddr_tipc {
    /// The union read as a socket.
    pub open spec fn spec_id(&self) -> tipc_portid {
        tipc_portid { ref_: self.addr[0], node: self.addr[1] }
    }

    /// The union read as a range of services.
    pub open spec fn spec_nameseq(&self) -> tipc_name_seq {
        tipc_name_seq { type_: self.addr[0], lower: self.addr[1], upper: self.addr[2] }
    }

    /// The union read as a service with its domain.
    pub open spec fn spec_name(&self) -> tipc_name_domain {
        tipc_name_domain {
            name: tipc_name { type_: self.addr[0], instance: self.addr[1] },
            domain: self.addr[2],
        }
    }

    /// The union read as a socket.
    #[verifier::when_used_as_spec(spec_id)]
    pub fn id(&self) -> (r: tipc_portid)
        ensures
            r == self.spec_id(),
    {
        tipc_portid { ref_: self.addr[0], node: self.addr[1] }
    }

    /// The union read as a range of services.
    #[verifier::when_used_as_spec(spec_nameseq)]
    pub fn nameseq(&self) -> (r: tipc_name_seq)
        ensures
            r == self.spec_nameseq(),
    {
        tipc_name_seq { type_: self.addr[0], lower: self.addr[1], upper: self.addr[2] }
    }

    /// The union read as a service with its domain.
    #[verifier::when_used_as_spec(spec_name)]
    pub fn name(&self) -> (r: tipc_name_domain)
        ensures
            r == self.spec_name(),
    {
        tipc_name_domain {
            name: tipc_name { type_: self.addr[0], instance: self.addr[1] },
            domain: self.addr[2],
        }
    }
}

impl Default for sockaddr_tipc {
    /// The address with every byte zero.
    fn default() -> (r: Self)
        ensures
            r.family == 0,
            r.addrtype == 0,
            r.scope == 0,
            r.addr@ == seq![0u32, 0u32, 0u32],
    {
        let r = sockaddr_tipc { family: 0, addrtype: 0, scope: 0, addr: [0, 0, 0] };
        proof {
            assert(r.addr@ =~= seq![0u32, 0u32, 0u32]);
        }
        r
    }
}

/// What joining a group asks of the kernel.
#[derive(Clone, Copy, Debug, Hash, PartialEq, Eq, PartialOrd, Ord, Structural)]
pub struct tipc_group_req {
    pub type_: u32,
    pub instance: u32,
    pub scope: u32,
    pub flags: u32,
}

/// The question for a link's name, and room for the answer.
#[derive(Clone, Copy, Debug, Hash, PartialEq, Eq)]
pub struct tipc_sioc_ln_req {
    pub peer: u32,
    pub bearer_id: u32,
    pub linkname: [u8; 60],
}

/// The question for a node's identity, and room for the answer.
#[derive(Clone, Copy, Debug, Hash, PartialEq, Eq)]
pub struct tipc_sioc_nodeid_req {
    pub peer: u32,
    pub node_id: [u8; 16],
}

} // verus!
