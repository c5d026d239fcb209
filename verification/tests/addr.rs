use tipc::ffi::{sockaddr_tipc, tipc_name, tipc_name_seq, tipc_portid};
use tipc::{
    AddrParseError, IntErrorKind, NetworkAddr, NonZeroU32, Scope, ServiceAddr, ServiceRange,
    SocketAddr, ToInstanceRange, Visibility,
};

#[test]
fn socket_addr() {
    assert_eq!(
        SocketAddr::from(tipc_portid {
            ref_: 123,
            node: 456
        }),
        SocketAddr::new(123, 456)
    );

    assert_eq!(SocketAddr::new(123, 456).to_string(), "0:0000000123@1c8");

    assert_eq!(
        "0:123@1c8".parse::<SocketAddr>().unwrap(),
        SocketAddr::new(123, 456)
    );
}

#[test]
fn socket_addr_text_at_the_limits() {
    assert_eq!(SocketAddr::new(0, 0).to_string(), "0:0000000000@0");
    assert_eq!(
        SocketAddr::new(u32::MAX, u32::MAX).to_string(),
        "0:4294967295@ffffffff"
    );
    assert_eq!(
        SocketAddr::new(1000000000, 0xabcdef).to_string(),
        "0:1000000000@abcdef"
    );
}

#[test]
fn socket_addr_round_trip() {
    for a in [
        SocketAddr::new(0, 0),
        SocketAddr::new(123, 456),
        SocketAddr::new(u32::MAX, u32::MAX),
        SocketAddr::new(4027185050, 0x1001001),
        SocketAddr::new(9, 0x10),
    ] {
        assert_eq!(a.to_string().parse::<SocketAddr>(), Ok(a));
        assert_eq!(SocketAddr::parse(&a.to_string()), Ok(a));
    }
}

#[test]
fn socket_addr_passes_over_what_stands_before_the_colon() {
    assert_eq!(
        "no number:7@a".parse::<SocketAddr>(),
        Ok(SocketAddr::new(7, 10))
    );
    assert_eq!(":7@A".parse::<SocketAddr>(), Ok(SocketAddr::new(7, 10)));
}

#[test]
fn socket_addr_errors() {
    assert_eq!("".parse::<SocketAddr>(), Err(AddrParseError::MissingRef));
    assert_eq!("0".parse::<SocketAddr>(), Err(AddrParseError::MissingRef));
    assert_eq!(
        "0:".parse::<SocketAddr>(),
        Err(AddrParseError::InvalidRef(IntErrorKind::Empty))
    );
    assert_eq!(
        "0:x@1".parse::<SocketAddr>(),
        Err(AddrParseError::InvalidRef(IntErrorKind::InvalidDigit))
    );
    assert_eq!(
        "0:ff@1".parse::<SocketAddr>(),
        Err(AddrParseError::InvalidRef(IntErrorKind::InvalidDigit))
    );
    assert_eq!(
        "0:4294967296@1".parse::<SocketAddr>(),
        Err(AddrParseError::InvalidRef(IntErrorKind::PosOverflow))
    );
    assert_eq!("0:12".parse::<SocketAddr>(), Err(AddrParseError::MissingNode));
    assert_eq!(
        "0:12@".parse::<SocketAddr>(),
        Err(AddrParseError::InvalidNode(IntErrorKind::Empty))
    );
    assert_eq!(
        "0:12@g".parse::<SocketAddr>(),
        Err(AddrParseError::InvalidNode(IntErrorKind::InvalidDigit))
    );
    assert_eq!(
        "0:12@1@2".parse::<SocketAddr>(),
        Err(AddrParseError::InvalidNode(IntErrorKind::InvalidDigit))
    );
    assert_eq!(
        "0:12@100000000".parse::<SocketAddr>(),
        Err(AddrParseError::InvalidNode(IntErrorKind::PosOverflow))
    );
    // The reference is read before the node is looked for.
    assert_eq!(
        "0:x".parse::<SocketAddr>(),
        Err(AddrParseError::InvalidRef(IntErrorKind::InvalidDigit))
    );
}

#[test]
fn errors_in_words() {
    assert_eq!(AddrParseError::MissingRef.to_string(), "missing reference");
    assert_eq!(AddrParseError::MissingType.to_string(), "missing type");
    assert_eq!(AddrParseError::MissingInstance.to_string(), "missing instance");
    assert_eq!(AddrParseError::MissingNode.to_string(), "missing node");
    assert_eq!(
        AddrParseError::InvalidRef(IntErrorKind::Empty).to_string(),
        "invalid reference, cannot parse integer from empty string"
    );
    assert_eq!(
        AddrParseError::InvalidType(IntErrorKind::InvalidDigit).to_string(),
        "invalid type, invalid digit found in string"
    );
    assert_eq!(
        AddrParseError::InvalidInstance(IntErrorKind::PosOverflow).to_string(),
        "invalid instance, number too large to fit in target type"
    );
    assert_eq!(
        AddrParseError::InvalidNode(IntErrorKind::InvalidDigit).to_string(),
        "invalid node, invalid digit found in string"
    );
    // The same words as the standard parser has for the same faults.
    assert_eq!(
        IntErrorKind::Empty.to_string(),
        "".parse::<u32>().unwrap_err().to_string()
    );
    assert_eq!(
        IntErrorKind::InvalidDigit.to_string(),
        "x".parse::<u32>().unwrap_err().to_string()
    );
    assert_eq!(
        IntErrorKind::PosOverflow.to_string(),
        "4294967296".parse::<u32>().unwrap_err().to_string()
    );
    assert_eq!(
        "0:x@1".parse::<SocketAddr>().unwrap_err().to_string(),
        "invalid reference, invalid digit found in string"
    );
}

#[test]
fn numerals_take_a_plus_and_leading_zeros() {
    assert_eq!("0:+12@+1F".parse::<SocketAddr>(), Ok(SocketAddr::new(12, 31)));
    assert_eq!(
        "0:00000000000000012@000000000000a".parse::<SocketAddr>(),
        Ok(SocketAddr::new(12, 10))
    );
    assert_eq!(
        "0:+@1".parse::<SocketAddr>(),
        Err(AddrParseError::InvalidRef(IntErrorKind::InvalidDigit))
    );
    assert_eq!(
        "0:-@1".parse::<SocketAddr>(),
        Err(AddrParseError::InvalidRef(IntErrorKind::InvalidDigit))
    );
    assert_eq!(
        "0:-1@1".parse::<SocketAddr>(),
        Err(AddrParseError::InvalidRef(IntErrorKind::InvalidDigit))
    );
    assert_eq!(
        "0:++1@1".parse::<SocketAddr>(),
        Err(AddrParseError::InvalidRef(IntErrorKind::InvalidDigit))
    );
    assert_eq!(
        "0:1 @1".parse::<SocketAddr>(),
        Err(AddrParseError::InvalidRef(IntErrorKind::InvalidDigit))
    );
    assert_eq!(
        "0:4294967295@ffffffff".parse::<SocketAddr>(),
        Ok(SocketAddr::new(u32::MAX, u32::MAX))
    );
    // An overflow is found at the digit that brings it, before a bad byte behind it.
    assert_eq!(
        "0:99999999999x@1".parse::<SocketAddr>(),
        Err(AddrParseError::InvalidRef(IntErrorKind::PosOverflow))
    );
    assert_eq!(
        "0:429496729x@1".parse::<SocketAddr>(),
        Err(AddrParseError::InvalidRef(IntErrorKind::InvalidDigit))
    );
}

#[test]
fn text_that_is_not_ascii_is_no_numeral() {
    assert_eq!(
        "0:1\u{e9}@1".parse::<SocketAddr>(),
        Err(AddrParseError::InvalidRef(IntErrorKind::InvalidDigit))
    );
    assert_eq!(
        "\u{661}:1".parse::<ServiceAddr>(),
        Err(AddrParseError::InvalidType(IntErrorKind::InvalidDigit))
    );
}

#[test]
fn service_addr_text() {
    assert_eq!(ServiceAddr::new(18888, 17).to_string(), "18888:17@0");
    assert_eq!(ServiceAddr::new(0, 0).to_string(), "0:0@0");
    assert_eq!(
        ServiceAddr::new(u32::MAX, u32::MAX).to_string(),
        "4294967295:4294967295@0"
    );
}

#[test]
fn service_addr_round_trip() {
    for a in [
        ServiceAddr::new(0, 0),
        ServiceAddr::new(18888, 17),
        ServiceAddr::new(u32::MAX, u32::MAX),
        ServiceAddr::new(10, 100),
    ] {
        assert_eq!(a.to_string().parse::<ServiceAddr>(), Ok(a));
    }
}

#[test]
fn service_addr_parse() {
    assert_eq!(
        "18888:17".parse::<ServiceAddr>(),
        Ok(ServiceAddr::new(18888, 17))
    );
    assert_eq!(
        "18888:17@anything at all".parse::<ServiceAddr>(),
        Ok(ServiceAddr::new(18888, 17))
    );
    assert_eq!(
        "".parse::<ServiceAddr>(),
        Err(AddrParseError::InvalidType(IntErrorKind::Empty))
    );
    assert_eq!(
        "x:1".parse::<ServiceAddr>(),
        Err(AddrParseError::InvalidType(IntErrorKind::InvalidDigit))
    );
    assert_eq!(
        "4294967296:1".parse::<ServiceAddr>(),
        Err(AddrParseError::InvalidType(IntErrorKind::PosOverflow))
    );
    assert_eq!(
        "18888".parse::<ServiceAddr>(),
        Err(AddrParseError::MissingInstance)
    );
    assert_eq!(
        "18888:".parse::<ServiceAddr>(),
        Err(AddrParseError::InvalidInstance(IntErrorKind::Empty))
    );
    assert_eq!(
        "18888:1:2".parse::<ServiceAddr>(),
        Err(AddrParseError::InvalidInstance(IntErrorKind::InvalidDigit))
    );
    // The type is read before the instance is looked for.
    assert_eq!(
        "x".parse::<ServiceAddr>(),
        Err(AddrParseError::InvalidType(IntErrorKind::InvalidDigit))
    );
}

#[test]
fn service_range_text() {
    assert_eq!(ServiceRange::new(4711, 0, 99).to_string(), "4711:0:99@0");
    assert_eq!(
        ServiceRange::with_type(1).to_string(),
        "1:0:4294967295@0"
    );
}

#[test]
fn service_range_round_trip() {
    for a in [
        ServiceRange::new(0, 0, 0),
        ServiceRange::new(4711, 100, 199),
        ServiceRange::new(u32::MAX, 0, u32::MAX),
        ServiceRange::new(18888, 17, 17),
        // The two ends are kept as they stand.
        ServiceRange::new(1, 5, 3),
    ] {
        assert_eq!(a.to_string().parse::<ServiceRange>(), Ok(a));
    }
}

#[test]
fn service_range_parse() {
    assert_eq!(
        "4711:0:99".parse::<ServiceRange>(),
        Ok(ServiceRange::new(4711, 0, 99))
    );
    assert_eq!(
        "4711:0:99@12:3".parse::<ServiceRange>(),
        Ok(ServiceRange::new(4711, 0, 99))
    );
    assert_eq!(
        ":0:99".parse::<ServiceRange>(),
        Err(AddrParseError::InvalidType(IntErrorKind::Empty))
    );
    assert_eq!(
        "4711".parse::<ServiceRange>(),
        Err(AddrParseError::MissingInstance)
    );
    assert_eq!(
        "4711:0".parse::<ServiceRange>(),
        Err(AddrParseError::MissingInstance)
    );
    assert_eq!(
        "4711:x:1".parse::<ServiceRange>(),
        Err(AddrParseError::InvalidInstance(IntErrorKind::InvalidDigit))
    );
    assert_eq!(
        "4711:0:".parse::<ServiceRange>(),
        Err(AddrParseError::InvalidInstance(IntErrorKind::Empty))
    );
    assert_eq!(
        "4711:0:99:1".parse::<ServiceRange>(),
        Err(AddrParseError::InvalidInstance(IntErrorKind::InvalidDigit))
    );
    assert_eq!(
        "4711:0:4294967296".parse::<ServiceRange>(),
        Err(AddrParseError::InvalidInstance(IntErrorKind::PosOverflow))
    );
    // A bad lower end is found before a missing upper end.
    assert_eq!(
        "4711:x".parse::<ServiceRange>(),
        Err(AddrParseError::InvalidInstance(IntErrorKind::InvalidDigit))
    );
}

#[test]
fn network_addr_parts() {
    let a = NetworkAddr::new(1, 2, 3);
    assert_eq!(a, NetworkAddr(0x01002003));
    assert_eq!(a.zone(), 1);
    assert_eq!(a.cluster(), 2);
    assert_eq!(a.node(), 3);
    assert_eq!(a.to_string(), "<1.2.3>");

    let top = NetworkAddr::new(255, 4095, 4095);
    assert_eq!(u32::from(top), u32::MAX);
    assert_eq!(top.to_string(), "<255.4095.4095>");
    assert_eq!(NetworkAddr::from(0).to_string(), "<0.0.0>");
    assert!(top == u32::MAX);
    assert!(top != 5u32);
    assert_eq!(NetworkAddr::default(), NetworkAddr(0));
}

#[test]
fn network_addr_round_trip() {
    for packed in [0u32, 1, 0x01001001, 0xdeadbeef, u32::MAX, 0x00fff000] {
        let a = NetworkAddr::from(packed);
        assert_eq!(NetworkAddr::new(a.zone(), a.cluster(), a.node()), a);
        assert_eq!(u32::from(a), packed);
    }
}

#[test]
fn network_addr_parts_that_do_not_fit_spill() {
    assert_eq!(NetworkAddr::new(0, 0, 0x1000), NetworkAddr(0x1000));
    assert_eq!(NetworkAddr::new(0, 0, 0x1000).cluster(), 1);
    assert_eq!(NetworkAddr::new(0x100, 0, 0), NetworkAddr(0));
}

#[test]
fn ranges_of_instances() {
    assert_eq!(ServiceRange::with_type(7), ServiceRange::new(7, 0, u32::MAX));
    assert_eq!(ServiceRange::with_range(7, 5u32), ServiceRange::new(7, 5, 5));
    assert_eq!(
        ServiceRange::with_range(7, 5u32..9),
        ServiceRange::new(7, 5, 9)
    );
    assert_eq!(ServiceRange::with_range(7, ..9u32), ServiceRange::new(7, 0, 9));
    assert_eq!(
        ServiceRange::with_range(7, 5u32..),
        ServiceRange::new(7, 5, u32::MAX)
    );
    assert_eq!(
        ServiceRange::with_range(7, ..),
        ServiceRange::new(7, 0, u32::MAX)
    );
    assert_eq!((3u32..4).lower(), 3);
    assert_eq!((3u32..4).upper(), 4);
    assert_eq!(ToInstanceRange::lower(&8u32), 8);
    assert_eq!(ToInstanceRange::upper(&8u32), 8);
}

#[test]
fn conversions_between_addresses() {
    assert_eq!(ServiceRange::from(7u32), ServiceRange::new(7, 0, u32::MAX));
    assert_eq!(
        ServiceRange::from(ServiceAddr::new(18888, 17)),
        ServiceRange::new(18888, 17, 17)
    );
    assert_eq!(
        ServiceRange::from((4711u32, 100u32..199)),
        ServiceRange::new(4711, 100, 199)
    );
    assert_eq!(ServiceRange::from((1u32, 2u32, 3u32)), ServiceRange::new(1, 2, 3));
    assert_eq!(ServiceAddr::from((1u32, 2u32)), ServiceAddr::new(1, 2));
    assert_eq!(SocketAddr::from((1u32, 2u32)), SocketAddr::new(1, 2));
    assert_eq!(
        tipc_name::from(ServiceAddr::new(1, 2)),
        tipc_name {
            type_: 1,
            instance: 2
        }
    );
    assert_eq!(
        tipc_name_seq::from(ServiceRange::new(1, 2, 3)),
        tipc_name_seq {
            type_: 1,
            lower: 2,
            upper: 3
        }
    );
    assert_eq!(
        tipc_portid::from(SocketAddr::new(1, 2)),
        tipc_portid { ref_: 1, node: 2 }
    );
    let a = ServiceRange::new(1, 2, 3);
    assert_eq!((a.ty(), a.lower(), a.upper()), (1, 2, 3));
    let b = ServiceAddr::new(4, 5);
    assert_eq!((b.ty(), b.instance()), (4, 5));
    let c = SocketAddr::new(6, 7);
    assert_eq!((c.port(), c.node()), (6, 7));
}

#[test]
fn scope_of_a_node() {
    assert_eq!(Scope::new(0), Scope::Global);
    assert_eq!(Scope::new(5), Scope::Node(NonZeroU32::new(5).unwrap()));
    assert_eq!(NonZeroU32::new(0), None);
    assert_eq!(NonZeroU32::new(9).unwrap().get(), 9);
    assert_eq!(u32::from(Scope::new(5)), 5);
    assert_eq!(u32::from(Scope::Global), 0);
    assert_eq!(Scope::from(0), Scope::Global);
    assert!(Scope::new(5) == 5u32);
    assert!(Scope::Global == 0u32);
    assert!(Scope::new(5) != 6u32);
    assert!(Scope::Global != 6u32);
    assert_eq!(SocketAddr::new(1, 0).scope(), Scope::Global);
    assert_eq!(SocketAddr::new(1, 77).scope(), Scope::new(77));
}

#[test]
fn scope_and_the_own_node() {
    assert!(Scope::new(5).is_own_node(5));
    assert!(!Scope::new(5).is_own_node(6));
    assert!(!Scope::Global.is_own_node(0));
    assert!(!Scope::Global.is_own_node(5));
    assert_eq!(Scope::new(5).visibility(5), Visibility::Node);
    assert_eq!(Scope::new(5).visibility(6), Visibility::Cluster);
    assert_eq!(Scope::Global.visibility(5), Visibility::Cluster);
    assert_eq!(Scope::Global.visibility(0), Visibility::Cluster);
}

#[test]
fn visibility_numbers() {
    assert_eq!(Visibility::default(), Visibility::Cluster);
    assert_eq!(Visibility::Zone.as_i8(), 1);
    assert_eq!(Visibility::Cluster.as_i8(), 2);
    assert_eq!(Visibility::Node.as_i8(), 3);
    assert_eq!(Visibility::Zone.as_u32(), 1);
    assert_eq!(Visibility::Cluster.as_u32(), 2);
    assert_eq!(Visibility::Node.as_u32(), 3);
}

#[test]
fn kernel_address_of_a_service() {
    let sa = sockaddr_tipc::from(ServiceAddr::new(18888, 17));
    assert_eq!(sa.family, 30);
    assert_eq!(sa.family as i32, libc::AF_TIPC);
    assert_eq!(sa.addrtype, 2);
    assert_eq!(sa.scope, 0);
    assert_eq!(sa.name().name, tipc_name { type_: 18888, instance: 17 });
    assert_eq!(sa.name().domain, 0);
    assert_eq!(sa.addr, [18888, 17, 0]);

    let scoped = sockaddr_tipc::from((ServiceAddr::new(18888, 17), Scope::new(0x1001001)));
    assert_eq!(scoped.addrtype, 2);
    assert_eq!(scoped.name().domain, 0x1001001);
    assert_eq!(scoped.addr, [18888, 17, 0x1001001]);
}

#[test]
fn kernel_address_of_a_socket() {
    let sa = sockaddr_tipc::from(SocketAddr::new(123, 456));
    assert_eq!(sa.family, 30);
    assert_eq!(sa.addrtype, 3);
    assert_eq!(sa.scope, 0);
    assert_eq!(sa.id(), tipc_portid { ref_: 123, node: 456 });
    assert_eq!(sa.addr, [123, 456, 0]);
}

#[test]
fn kernel_address_of_a_range() {
    let sa = sockaddr_tipc::from(ServiceRange::new(4711, 100, 199));
    assert_eq!(sa.family, 30);
    assert_eq!(sa.addrtype, 1);
    assert_eq!(sa.scope, 2);
    assert_eq!(
        sa.nameseq(),
        tipc_name_seq {
            type_: 4711,
            lower: 100,
            upper: 199
        }
    );
    let seen = sockaddr_tipc::from((ServiceRange::new(4711, 100, 199), Visibility::Node));
    assert_eq!(seen.scope, 3);
    let zone = sockaddr_tipc::from((ServiceRange::new(4711, 100, 199), Visibility::Zone));
    assert_eq!(zone.scope, 1);
    assert_eq!(zone.addr, [4711, 100, 199]);
}

#[test]
fn kernel_address_of_nothing() {
    let sa = sockaddr_tipc::default();
    assert_eq!((sa.family, sa.addrtype, sa.scope, sa.addr), (0, 0, 0, [0, 0, 0]));
}
