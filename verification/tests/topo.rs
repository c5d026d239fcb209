use tipc::ffi::{tipc_event, tipc_name_seq, tipc_portid, tipc_subscr};
use tipc::topo::{
    connect, link_name, neighbor_links, neighbor_nodes, recv, subscribe, subscribed, unsubscribe,
    unsubscribed, wait, wait_step, wait_subscription, Event, Filter, Link, Node, Subscription,
};
use tipc::{Duration, Error, ErrorKind, Scope, ServiceAddr, ServiceRange, SocketAddr};

fn raw_subscr(ty: u32, lower: u32, upper: u32, timeout: u32, filter: u32, user: u64) -> tipc_subscr {
    tipc_subscr {
        seq: tipc_name_seq {
            type_: ty,
            lower,
            upper,
        },
        timeout,
        filter,
        usr_handle: user.to_ne_bytes(),
    }
}

fn raw_event(event: u32, lower: u32, upper: u32, port: u32, node: u32) -> tipc_event {
    tipc_event {
        event,
        found_lower: lower,
        found_upper: upper,
        port: tipc_portid { ref_: port, node },
        s: raw_subscr(18888, 0, 99, 1000, 2, 0x0102030405060708),
    }
}

fn published(node: u32) -> Event {
    recv(48, &raw_event(1, 17, 17, 5, node)).unwrap()
}

fn withdrawn(node: u32) -> Event {
    recv(48, &raw_event(2, 17, 17, 5, node)).unwrap()
}

#[test]
fn subscription_encoding() {
    let user = 0x1122334455667788u64;
    let sub = Subscription {
        service: ServiceRange::new(18888, 17, 17),
        filter: Filter::Edge,
        timeout: None,
        userdata: user,
    };
    let raw = subscribe(sub);
    assert_eq!(raw.filter, 2);
    assert_eq!(raw.timeout, 0xFFFFFFFF);
    assert_eq!(raw.usr_handle, user.to_ne_bytes());
    assert_eq!(
        raw.seq,
        tipc_name_seq {
            type_: 18888,
            lower: 17,
            upper: 17
        }
    );
    assert_eq!(tipc_subscr::from(sub), raw);
    assert_eq!(sub.encode(), raw);
}

#[test]
fn subscription_encoding_of_filter_and_timeout() {
    let sub = Subscription::new(ServiceRange::with_type(0))
        .all()
        .timeout(Duration::from_secs(1))
        .userdata(1);
    let raw = sub.encode();
    assert_eq!(raw.filter, 1);
    assert_eq!(raw.timeout, 1000);
    assert_eq!(raw.usr_handle, 1u64.to_ne_bytes());

    let long = Subscription::new(ServiceRange::with_type(0)).timeout(Duration {
        secs: 4294967,
        nanos: 296_999_999,
    });
    // 4294967296 whole milliseconds: what 32 bits do not hold is dropped.
    assert_eq!(long.encode().timeout, 0);
    let short = Subscription::new(ServiceRange::with_type(0)).timeout(Duration {
        secs: 0,
        nanos: 999_999,
    });
    assert_eq!(short.encode().timeout, 0);
    let some = Subscription::new(ServiceRange::with_type(0)).timeout(Duration {
        secs: 2,
        nanos: 5_000_001,
    });
    assert_eq!(some.encode().timeout, 2005);
}

#[test]
fn subscription_builders() {
    let sub = Subscription::new(ServiceRange::new(1, 2, 3));
    assert_eq!(
        sub,
        Subscription {
            service: ServiceRange::new(1, 2, 3),
            timeout: None,
            filter: Filter::Edge,
            userdata: 0
        }
    );
    assert_eq!(sub.all().filter, Filter::All);
    assert_eq!(sub.all().edge().filter, Filter::Edge);
    assert_eq!(sub.userdata(9).userdata, 9);
    assert_eq!(
        sub.timeout(Duration::from_millis(1500)).timeout,
        Some(Duration {
            secs: 1,
            nanos: 500_000_000
        })
    );
    assert_eq!(Subscription::from(ServiceRange::new(1, 2, 3)), sub);
    assert_eq!(
        Subscription::from(ServiceAddr::new(1, 2)),
        Subscription::new(ServiceRange::new(1, 2, 2))
    );
    assert_eq!(Filter::All.bits(), 1);
    assert_eq!(Filter::Edge.bits(), 2);
}

#[test]
fn subscriptions_of_what_stands_for_a_range() {
    assert_eq!(
        Subscription::from(7u32),
        Subscription::new(ServiceRange::new(7, 0, u32::MAX))
    );
    assert_eq!(
        Subscription::from((7u32, 5u32)),
        Subscription::new(ServiceRange::new(7, 5, 5))
    );
    assert_eq!(
        Subscription::from((7u32, 5u32..9)),
        Subscription::new(ServiceRange::new(7, 5, 9))
    );
    assert_eq!(
        Subscription::from((7u32, ..)),
        Subscription::new(ServiceRange::new(7, 0, u32::MAX))
    );
    assert_eq!(
        Subscription::from((7u32, 5u32, 9u32)),
        Subscription::new(ServiceRange::new(7, 5, 9))
    );
    assert_eq!(
        Subscription::from(tipc_name_seq {
            type_: 7,
            lower: 5,
            upper: 9
        }),
        Subscription::new(ServiceRange::new(7, 5, 9))
    );
}

#[test]
fn an_event_hands_back_the_subscription_that_asked() {
    for sub in [
        Subscription::new(ServiceRange::new(18888, 17, 17)).userdata(3),
        Subscription::new(ServiceRange::new(18888, 0, 99))
            .all()
            .timeout(Duration::from_secs(1)),
    ] {
        let answer = tipc_event {
            event: 1,
            found_lower: 17,
            found_upper: 17,
            port: tipc_portid { ref_: 5, node: 6 },
            s: tipc_subscr::from(sub),
        };
        let evt = recv(48, &answer).unwrap();
        assert_eq!(*evt.subscription(), sub);
    }
}

#[test]
fn subscription_decoding() {
    let sub = Subscription::decode(&raw_subscr(18888, 0, 99, 1000, 2, 77));
    assert_eq!(
        sub,
        Subscription {
            service: ServiceRange::new(18888, 0, 99),
            timeout: Some(Duration::from_secs(1)),
            filter: Filter::Edge,
            userdata: 77
        }
    );
    assert_eq!(Subscription::from(raw_subscr(18888, 0, 99, 1000, 2, 77)), sub);
    assert_eq!(
        Subscription::decode(&raw_subscr(1, 2, 3, 0, 1, 0)).timeout,
        Some(Duration::from_millis(0))
    );
    assert_eq!(Subscription::decode(&raw_subscr(1, 2, 3, 0, 1, 0)).filter, Filter::All);
    assert_eq!(Subscription::decode(&raw_subscr(1, 2, 3, 0, 3, 0)).filter, Filter::All);
    assert_eq!(Subscription::decode(&raw_subscr(1, 2, 3, 0, 4, 0)).filter, Filter::Edge);
    assert_eq!(Subscription::decode(&raw_subscr(1, 2, 3, 0, 0, 0)).filter, Filter::Edge);
    assert_eq!(
        Subscription::decode(&raw_subscr(1, 2, 3, 0xFFFFFFFF, 2, 0)).timeout,
        None
    );
    assert_eq!(
        Subscription::decode(&raw_subscr(1, 2, 3, 0xFFFFFFFE, 2, 0)).timeout,
        Some(Duration {
            secs: 4294967,
            nanos: 294_000_000
        })
    );
    assert_eq!(
        Subscription::decode(&raw_subscr(1, 2, 3, 1, 2, u64::MAX)).userdata,
        u64::MAX
    );
}

#[test]
fn subscription_round_trip() {
    for sub in [
        Subscription::new(ServiceRange::new(18888, 17, 17)).timeout(Duration::from_secs(1)),
        Subscription::new(ServiceRange::with_type(2))
            .all()
            .timeout(Duration::from_millis(1))
            .userdata(0xdeadbeefcafe),
        Subscription::new(ServiceRange::new(0, 0, 0))
            .timeout(Duration::from_millis(0xFFFFFFFE))
            .userdata(u64::MAX),
    ] {
        assert_eq!(Subscription::decode(&sub.encode()), sub);
    }
    // No timeout goes out as the number for "never" and comes back as no timeout.
    let forever = Subscription::new(ServiceRange::new(1, 1, 1)).userdata(7);
    assert_eq!(forever.encode().timeout, 0xFFFFFFFF);
    assert_eq!(Subscription::decode(&forever.encode()), forever);
    let at_once = Subscription::new(ServiceRange::new(1, 1, 1)).timeout(Duration::from_millis(0));
    assert_eq!(Subscription::decode(&at_once.encode()), at_once);
}

#[test]
fn sending_a_subscription() {
    let sub = Subscription::new(ServiceRange::new(1, 2, 3));
    assert_eq!(subscribed(28, sub), Ok(sub));
    assert_eq!(subscribed(27, sub), Err(Error::SubscribeFailed));
    assert_eq!(subscribed(0, sub), Err(Error::SubscribeFailed));
    assert_eq!(subscribed(29, sub), Err(Error::SubscribeFailed));
    assert_eq!(Error::SubscribeFailed.kind(), ErrorKind::Other);
}

#[test]
fn cancelling_a_subscription() {
    let sub = Subscription::new(ServiceRange::new(18888, 17, 17))
        .timeout(Duration::from_secs(1))
        .userdata(5);
    let asked = subscribe(sub);
    let cancel = unsubscribe(sub);
    assert_eq!(cancel.filter, 2 | 4);
    assert_eq!(cancel.seq, asked.seq);
    assert_eq!(cancel.timeout, asked.timeout);
    assert_eq!(cancel.usr_handle, asked.usr_handle);
    assert_eq!(unsubscribe(sub.all()).filter, 1 | 4);
    assert_eq!(unsubscribed(28), Ok(()));
    assert_eq!(unsubscribed(12), Err(Error::UnsubscribeFailed));
    assert_eq!(Error::UnsubscribeFailed.kind(), ErrorKind::Other);
}

#[test]
fn event_decoding() {
    let evt = recv(48, &raw_event(1, 17, 20, 5, 6)).unwrap();
    assert_eq!(
        evt,
        Event::Published {
            service: ServiceRange::new(18888, 17, 20),
            sock: SocketAddr::new(5, 6),
            subscription: Subscription {
                service: ServiceRange::new(18888, 0, 99),
                timeout: Some(Duration::from_secs(1)),
                filter: Filter::Edge,
                userdata: 0x0102030405060708
            }
        }
    );
    assert!(evt.available());
    assert_eq!(evt.service(), ServiceRange::new(18888, 17, 20));
    assert_eq!(evt.sock(), SocketAddr::new(5, 6));
    assert_eq!(evt.subscription().userdata, 0x0102030405060708);

    let gone = recv(48, &raw_event(2, 17, 20, 5, 6)).unwrap();
    assert!(matches!(gone, Event::Withdrawn { .. }));
    assert!(!gone.available());
    assert_eq!(gone.service(), ServiceRange::new(18888, 17, 20));
    assert_eq!(gone.sock(), SocketAddr::new(5, 6));
    assert_eq!(Event::decode(&raw_event(2, 17, 20, 5, 6)), Ok(gone));
}

#[test]
fn event_timeout_and_unknown_events() {
    let timed_out = recv(48, &raw_event(3, 0, 0, 0, 0));
    assert_eq!(timed_out, Err(Error::TimedOut));
    assert_eq!(timed_out.unwrap_err().kind(), ErrorKind::TimedOut);
    assert_eq!(
        recv(48, &raw_event(0, 0, 0, 0, 0)),
        Err(Error::UnexpectedEvent(0))
    );
    assert_eq!(
        recv(48, &raw_event(4, 0, 0, 0, 0)),
        Err(Error::UnexpectedEvent(4))
    );
    assert_eq!(Error::UnexpectedEvent(4).kind(), ErrorKind::Other);
}

#[test]
fn event_received_short() {
    assert_eq!(recv(47, &raw_event(1, 17, 17, 5, 6)), Err(Error::ReceiveFailed));
    assert_eq!(recv(0, &raw_event(1, 17, 17, 5, 6)), Err(Error::ReceiveFailed));
    assert_eq!(recv(49, &raw_event(3, 17, 17, 5, 6)), Err(Error::ReceiveFailed));
    assert_eq!(Error::ReceiveFailed.kind(), ErrorKind::Other);
}

#[test]
fn waiting_in_the_whole_cluster() {
    assert_eq!(wait(Scope::Global, &[]), None);
    assert_eq!(wait(Scope::Global, &[published(6)]), Some(true));
    assert_eq!(wait(Scope::Global, &[withdrawn(6)]), Some(false));
    assert_eq!(wait(Scope::Global, &[published(6), withdrawn(6)]), Some(true));
    assert_eq!(wait(Scope::Global, &[withdrawn(6), published(6)]), Some(false));
}

#[test]
fn waiting_on_a_node() {
    let here = Scope::new(6);
    assert_eq!(wait(here, &[published(7)]), None);
    assert_eq!(wait(here, &[published(7), withdrawn(8)]), None);
    assert_eq!(wait(here, &[published(7), withdrawn(6)]), Some(false));
    assert_eq!(wait(here, &[withdrawn(7), published(6), withdrawn(6)]), Some(true));
    assert_eq!(published(7).answer(here), None);
    assert_eq!(published(6).answer(here), Some(true));
    assert_eq!(withdrawn(6).answer(Scope::Global), Some(false));
}

#[test]
fn waiting_record_by_record() {
    let here = Scope::new(6);
    assert_eq!(wait_step(Scope::Global, 48, &raw_event(1, 17, 17, 5, 6)), Some(Ok(true)));
    assert_eq!(wait_step(Scope::Global, 48, &raw_event(2, 17, 17, 5, 6)), Some(Ok(false)));
    assert_eq!(wait_step(here, 48, &raw_event(1, 17, 17, 5, 6)), Some(Ok(true)));
    assert_eq!(wait_step(here, 48, &raw_event(2, 17, 17, 5, 6)), Some(Ok(false)));
    assert_eq!(wait_step(here, 48, &raw_event(1, 17, 17, 5, 7)), None);
    assert_eq!(wait_step(here, 48, &raw_event(2, 17, 17, 5, 7)), None);
    // A subscription that ran out ends the waiting, whatever node is waited for.
    assert_eq!(
        wait_step(Scope::Global, 48, &raw_event(3, 0, 0, 0, 0)),
        Some(Err(Error::TimedOut))
    );
    assert_eq!(
        wait_step(here, 48, &raw_event(3, 0, 0, 0, 7)),
        Some(Err(Error::TimedOut))
    );
    assert_eq!(
        wait_step(here, 47, &raw_event(1, 17, 17, 5, 6)),
        Some(Err(Error::ReceiveFailed))
    );
    assert_eq!(
        wait_step(here, 48, &raw_event(9, 17, 17, 5, 6)),
        Some(Err(Error::UnexpectedEvent(9)))
    );
}

#[test]
fn what_waiting_subscribes_to() {
    assert_eq!(
        wait_subscription(ServiceAddr::new(18888, 17), None),
        Subscription {
            service: ServiceRange::new(18888, 17, 17),
            filter: Filter::Edge,
            timeout: None,
            userdata: 0
        }
    );
    assert_eq!(
        wait_subscription(ServiceAddr::new(18888, 17), Some(Duration::from_secs(1))).timeout,
        Some(Duration::from_secs(1))
    );
}

#[test]
fn where_the_topology_service_is() {
    assert_eq!(connect(Scope::Global), (ServiceAddr::new(1, 1), Scope::Global));
    assert_eq!(connect(Scope::new(9)), (ServiceAddr::new(1, 1), Scope::new(9)));
}

#[test]
fn neighbour_subscriptions() {
    assert_eq!(
        neighbor_nodes(),
        Subscription {
            service: ServiceRange::new(0, 0, u32::MAX),
            filter: Filter::All,
            timeout: None,
            userdata: 0
        }
    );
    assert_eq!(
        neighbor_links(),
        Subscription {
            service: ServiceRange::new(2, 0, u32::MAX),
            filter: Filter::All,
            timeout: None,
            userdata: 0
        }
    );
}

#[test]
fn node_events() {
    let up = Node::from(published(0x1001002));
    assert_eq!(up, Node::Up(0x1001002));
    assert!(up.available());
    assert_eq!(up.instance(), 0x1001002);
    let down = Node::from(withdrawn(0x1001002));
    assert_eq!(down, Node::Down(0x1001002));
    assert!(!down.available());
    assert_eq!(down.instance(), 0x1001002);
}

#[test]
fn link_events() {
    let evt = recv(48, &raw_event(1, 0x1001002, 0x1001002, 0x0003_0001, 0x1001001)).unwrap();
    let up = Link::from(evt);
    assert_eq!(
        up,
        Link::Up {
            local: 1,
            peer: 3,
            neighbor: 0x1001002
        }
    );
    assert!(up.available());
    assert_eq!(up.local_bearer_id(), 1);
    assert_eq!(up.peer_bearer_id(), 3);
    assert_eq!(up.neighbor(), 0x1001002);

    let evt = recv(48, &raw_event(2, 9, 10, 0xffff_fffe, 1)).unwrap();
    let down = Link::from(evt);
    assert_eq!(
        down,
        Link::Down {
            local: 0xfffe,
            peer: 0xffff,
            neighbor: 9
        }
    );
    assert!(!down.available());
}

#[test]
fn link_name_questions() {
    let link = Link::Up {
        local: 1,
        peer: 3,
        neighbor: 0x1001002,
    };
    let local = link.local_link_name();
    assert_eq!((local.peer, local.bearer_id), (0x1001002, 1));
    assert_eq!(local.linkname, [0u8; 60]);
    let peer = link.peer_link_name();
    assert_eq!((peer.peer, peer.bearer_id), (0x1001002, 3));
    assert_eq!(peer.linkname, [0u8; 60]);
    let asked = link_name(7, 8);
    assert_eq!((asked.peer, asked.bearer_id, asked.linkname), (7, 8, [0u8; 60]));
}

#[test]
fn durations() {
    assert_eq!(Duration::from_secs(3).as_millis(), 3000);
    assert_eq!(Duration::from_millis(1234).as_secs(), 1);
    assert_eq!(Duration::from_millis(1234).subsec_nanos(), 234_000_000);
    assert_eq!(Duration::from_millis(u64::MAX).as_millis(), u64::MAX as u128);
    assert_eq!(
        Duration {
            secs: u64::MAX,
            nanos: 999_999_999
        }
        .as_millis(),
        u64::MAX as u128 * 1000 + 999
    );
    let std = std::time::Duration::new(12, 345_678_901);
    let ours = Duration {
        secs: std.as_secs(),
        nanos: std.subsec_nanos(),
    };
    assert_eq!(ours.as_millis(), std.as_millis());
}
