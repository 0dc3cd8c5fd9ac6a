use std::io::{Error, ErrorKind};
use std::sync::Arc;

use hickory_proto::op::{Message, MessageType, OpCode};
use hickory_proto::ProtoError;
use swarm_discovery::{IpAddr, IpClass, Mode, SendPlan, SocketError, Sockets, IP, MDNS_IPV4, MDNS_IPV6, MDNS_PORT};
use tokio::net::UdpSocket;
use tokio::runtime::Runtime;

fn runtime() -> Runtime {
    tokio::runtime::Builder::new_current_thread().enable_io().build().expect("runtime")
}

fn udp(rt: &Runtime) -> Arc<UdpSocket> {
    Arc::new(rt.block_on(async { UdpSocket::bind("127.0.0.1:0").await.expect("bind") }))
}

fn fail(domain: IP) -> SocketError {
    SocketError::Bind { domain, source: Error::new(ErrorKind::AddrInUse, "in use") }
}

fn same(a: &Option<Arc<UdpSocket>>, b: &Arc<UdpSocket>) -> bool {
    a.as_ref().map_or(false, |a| Arc::ptr_eq(a, b))
}

#[test]
fn auto_keeps_what_opened() {
    let rt = runtime();
    let s6 = udp(&rt);
    let s = Sockets::new(IpClass::Auto, Some(Err(fail(IP::Ipv4))), Some(Ok(s6.clone()))).expect("ok");
    assert!(s.v4().is_none());
    assert!(same(&s.v6(), &s6));
}

#[test]
fn auto_fails_only_when_nothing_opened() {
    let r = Sockets::new(IpClass::Auto, Some(Err(fail(IP::Ipv4))), Some(Err(fail(IP::Ipv6))));
    assert!(matches!(r, Err(SocketError::CannotBind)));
}

#[test]
fn auto_tries_v6_after_v4_failure() {
    assert!(Sockets::wants_v6(IpClass::Auto, &Some(Err(fail(IP::Ipv4)))));
    assert!(!Sockets::wants_v6(IpClass::V4AndV6, &Some(Err(fail(IP::Ipv4)))));
    assert!(!Sockets::wants_v6(IpClass::V4Only, &None));
    assert!(Sockets::wants_v6(IpClass::V6Only, &None));
}

#[test]
fn explicit_class_reports_first_failure() {
    let rt = runtime();
    let r = Sockets::new(IpClass::V4AndV6, Some(Err(fail(IP::Ipv4))), None);
    assert!(matches!(r, Err(SocketError::Bind { domain: IP::Ipv4, .. })));
    let r = Sockets::new(IpClass::V4AndV6, Some(Ok(udp(&rt))), Some(Err(fail(IP::Ipv6))));
    assert!(matches!(r, Err(SocketError::Bind { domain: IP::Ipv6, .. })));
    let r = Sockets::new(IpClass::V6Only, None, Some(Err(fail(IP::Ipv6))));
    assert!(matches!(r, Err(SocketError::Bind { domain: IP::Ipv6, .. })));
}

#[test]
fn explicit_class_keeps_its_families() {
    let rt = runtime();
    let (a, b) = (udp(&rt), udp(&rt));
    let s = Sockets::new(IpClass::V4AndV6, Some(Ok(a.clone())), Some(Ok(b.clone()))).expect("ok");
    assert!(same(&s.v4(), &a) && same(&s.v6(), &b));
    let s = Sockets::new(IpClass::V4Only, Some(Ok(a.clone())), None).expect("ok");
    assert!(same(&s.v4(), &a) && s.v6().is_none());
    let s = Sockets::new(IpClass::V6Only, None, Some(Ok(b.clone()))).expect("ok");
    assert!(s.v4().is_none() && same(&s.v6(), &b));
}

#[test]
fn new_for_interface_by_family() {
    let rt = runtime();
    let a = udp(&rt);
    let s = Sockets::new_for_interface(IpAddr::V4(1), Ok(a.clone())).expect("ok");
    assert!(same(&s.v4(), &a) && s.v6().is_none());
    let s = Sockets::new_for_interface(IpAddr::V6(1), Ok(a.clone())).expect("ok");
    assert!(s.v4().is_none() && same(&s.v6(), &a));
    let r = Sockets::new_for_interface(IpAddr::V4(1), Err(fail(IP::Ipv4)));
    assert!(matches!(r, Err(SocketError::Bind { domain: IP::Ipv4, .. })));
}

#[test]
fn targets_by_mode() {
    let rt = runtime();
    let (a, b) = (udp(&rt), udp(&rt));
    let both = Sockets::new(IpClass::V4AndV6, Some(Ok(a.clone())), Some(Ok(b.clone()))).expect("ok");
    let t = both.target(Mode::V4).expect("v4");
    assert!(Arc::ptr_eq(&t.socket, &a) && t.addr == IpAddr::V4(MDNS_IPV4) && t.port == MDNS_PORT);
    let t = both.target(Mode::V6).expect("v6");
    assert!(Arc::ptr_eq(&t.socket, &b) && t.addr == IpAddr::V6(MDNS_IPV6) && t.port == MDNS_PORT);
    let t = both.target(Mode::Any).expect("any");
    assert!(Arc::ptr_eq(&t.socket, &a) && t.addr == IpAddr::V4(MDNS_IPV4));

    let only6 = Sockets::new(IpClass::V6Only, None, Some(Ok(b.clone()))).expect("ok");
    assert!(only6.target(Mode::V4).is_none());
    let t = only6.target(Mode::Any).expect("any");
    assert!(Arc::ptr_eq(&t.socket, &b) && t.addr == IpAddr::V6(MDNS_IPV6));
}

#[test]
fn plan_send_cases() {
    let rt = runtime();
    let a = udp(&rt);
    let only4 = Sockets::new(IpClass::V4Only, Some(Ok(a.clone())), None).expect("ok");
    match only4.plan_send(Ok(vec![1, 2, 3]), Mode::Any) {
        SendPlan::Send { socket, bytes, addr, port } => {
            assert!(Arc::ptr_eq(&socket, &a));
            assert_eq!(bytes, vec![1, 2, 3]);
            assert_eq!(addr, IpAddr::V4(MDNS_IPV4));
            assert_eq!(port, 5353);
        }
        other => panic!("unexpected {:?}", other),
    }
    assert!(matches!(only4.plan_send(Ok(vec![1]), Mode::V6), SendPlan::NoSocket(Mode::V6)));
    let err = ProtoError::from("cannot encode");
    assert!(matches!(only4.plan_send(Err(err), Mode::V4), SendPlan::EncodeFailed(_)));
}

#[test]
fn send_msg_encodes_the_message() {
    let rt = runtime();
    let a = udp(&rt);
    let only4 = Sockets::new(IpClass::V4Only, Some(Ok(a.clone())), None).expect("ok");
    let msg = Message::new(7, MessageType::Query, OpCode::Query);
    let expected = msg.to_vec().expect("encode");
    match only4.send_msg(&msg, Mode::V4) {
        SendPlan::Send { socket, bytes, addr, port } => {
            assert!(Arc::ptr_eq(&socket, &a));
            assert_eq!(bytes, expected);
            assert!(bytes.len() >= 12);
            assert_eq!(addr, IpAddr::V4(MDNS_IPV4));
            assert_eq!(port, MDNS_PORT);
        }
        other => panic!("unexpected {:?}", other),
    }
    assert!(matches!(only4.send_msg(&msg, Mode::V6), SendPlan::NoSocket(Mode::V6)));
}

#[test]
fn cloned_sockets_share_the_sockets() {
    let rt = runtime();
    let a = udp(&rt);
    let s = Sockets::new(IpClass::Auto, Some(Ok(a.clone())), Some(Err(fail(IP::Ipv6)))).expect("ok");
    let c = s.clone();
    assert!(same(&c.v4(), &a) && c.v6().is_none());
}
