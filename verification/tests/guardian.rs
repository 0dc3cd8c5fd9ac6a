use std::collections::HashSet;
use std::io::{Error, ErrorKind};
use std::sync::Arc;

use hickory_proto::rr::Name;
use swarm_discovery::guardian::{make_receiver_name, spawn_plan, to_decimal, ActorOutcome, SpawnStep};
use swarm_discovery::{
    guardian_step, receivers, GuardianAction, GuardianEvent, Input, IpAddr, IpClass, SocketError, Sockets, IP,
};
use tokio::net::UdpSocket;
use tokio::runtime::Runtime;

fn runtime() -> Runtime {
    tokio::runtime::Builder::new_current_thread().enable_io().build().expect("runtime")
}

fn udp(rt: &Runtime) -> Arc<UdpSocket> {
    Arc::new(rt.block_on(async { UdpSocket::bind("127.0.0.1:0").await.expect("bind") }))
}

#[test]
fn decimal_numbers() {
    assert_eq!(to_decimal(0), "0");
    assert_eq!(to_decimal(7), "7");
    assert_eq!(to_decimal(10), "10");
    assert_eq!(to_decimal(120), "120");
    assert_eq!(to_decimal(usize::MAX), usize::MAX.to_string());
}

#[test]
fn receiver_names() {
    assert_eq!(make_receiver_name(IP::Ipv4, 0), "receiver_v4_0");
    assert_eq!(make_receiver_name(IP::Ipv6, 12), "receiver_v6_12");
}

#[test]
fn receivers_for_each_socket() {
    let rt = runtime();
    let (a, b, c) = (udp(&rt), udp(&rt), udp(&rt));
    let fail = || SocketError::Bind { domain: IP::Ipv4, source: Error::new(ErrorKind::AddrInUse, "in use") };
    let sets = vec![
        Sockets::new(IpClass::V4AndV6, Some(Ok(a.clone())), Some(Ok(b.clone()))).expect("ok"),
        Sockets::new(IpClass::Auto, Some(Err(fail())), Some(Ok(c.clone()))).expect("ok"),
        Sockets::new_for_interface(IpAddr::V4(5), Ok(a.clone())).expect("ok"),
    ];
    let r = receivers(&sets);
    let names: Vec<&str> = r.iter().map(|x| x.name.as_str()).collect();
    assert_eq!(names, vec!["receiver_v4_0", "receiver_v6_0", "receiver_v6_1", "receiver_v4_2"]);
    assert!(Arc::ptr_eq(&r[0].socket, &a));
    assert!(Arc::ptr_eq(&r[1].socket, &b));
    assert!(Arc::ptr_eq(&r[2].socket, &c));
    assert!(Arc::ptr_eq(&r[3].socket, &a));
    assert_eq!((r[2].domain, r[2].index), (IP::Ipv6, 1));
    let distinct: HashSet<&str> = names.iter().copied().collect();
    assert_eq!(distinct.len(), names.len());
}

#[test]
fn receivers_of_many_sets_have_distinct_names() {
    let rt = runtime();
    let a = udp(&rt);
    let sets: Vec<Sockets> = (0..25)
        .map(|i| {
            if i % 2 == 0 {
                Sockets::new(IpClass::V4AndV6, Some(Ok(a.clone())), Some(Ok(a.clone()))).expect("ok")
            } else {
                Sockets::new_for_interface(IpAddr::V6(0), Ok(a.clone())).expect("ok")
            }
        })
        .collect();
    let r = receivers(&sets);
    assert_eq!(r.len(), 13 * 2 + 12);
    let distinct: HashSet<String> = r.iter().map(|x| x.name.clone()).collect();
    assert_eq!(distinct.len(), r.len());
}

#[test]
fn no_receivers_without_sockets() {
    assert!(receivers(&Vec::new()).is_empty());
}

#[test]
fn guardian_waits_when_senders_are_gone() {
    assert!(matches!(guardian_step(GuardianEvent::NoMoreSenders), GuardianAction::Wait));
}

#[test]
fn guardian_forwards_inputs() {
    let input = Input::AddAddr(4000, vec![IpAddr::V4(1), IpAddr::V6(2)]);
    match guardian_step(GuardianEvent::Message(input)) {
        GuardianAction::Forward(Input::AddAddr(port, addrs)) => {
            assert_eq!(port, 4000);
            assert_eq!(addrs, vec![IpAddr::V4(1), IpAddr::V6(2)]);
        }
        other => panic!("unexpected {:?}", other),
    }
    match guardian_step(GuardianEvent::Message(Input::SetTxt("k".to_string(), Some("v".to_string())))) {
        GuardianAction::Forward(Input::SetTxt(k, v)) => {
            assert_eq!(k, "k");
            assert_eq!(v.as_deref(), Some("v"));
        }
        other => panic!("unexpected {:?}", other),
    }
    assert!(matches!(
        guardian_step(GuardianEvent::Message(Input::RemoveAll)),
        GuardianAction::Forward(Input::RemoveAll)
    ));
}

#[test]
fn guardian_stops_on_any_supervision() {
    for outcome in [
        ActorOutcome::Stopped,
        ActorOutcome::Failed("boom".to_string()),
        ActorOutcome::Aborted("panic".to_string()),
    ] {
        let text = format!("{:?}", outcome);
        match guardian_step(GuardianEvent::Supervision { name: "sender".to_string(), outcome }) {
            GuardianAction::Stop { name, outcome } => {
                assert_eq!(name, "sender");
                assert_eq!(format!("{:?}", outcome), text);
            }
            other => panic!("unexpected {:?}", other),
        }
    }
}

#[test]
fn spawn_plan_starts_updater_sender_then_receivers() {
    let rt = runtime();
    let (a, b) = (udp(&rt), udp(&rt));
    let service = Name::from_ascii("_swarm._udp.local.").expect("name");
    let sets = vec![
        Sockets::new(IpClass::V4AndV6, Some(Ok(a.clone())), Some(Ok(b.clone()))).expect("ok"),
        Sockets::new_for_interface(IpAddr::V6(1), Ok(b.clone())).expect("ok"),
    ];
    let plan = spawn_plan(&sets, &service);
    let names: Vec<String> = plan.iter().map(|s| s.actor_name()).collect();
    assert_eq!(names, vec!["updater", "sender", "receiver_v4_0", "receiver_v6_0", "receiver_v6_1"]);
    assert!(matches!(plan[0], SpawnStep::Updater));
    match &plan[1] {
        SpawnStep::Sender { sockets, service_name } => {
            assert_eq!(sockets.len(), 2);
            assert!(Arc::ptr_eq(&sockets[0].v4().expect("v4"), &a));
            assert!(Arc::ptr_eq(&sockets[1].v6().expect("v6"), &b));
            assert_eq!(service_name, &service);
        }
        other => panic!("unexpected {:?}", other),
    }
    match &plan[3] {
        SpawnStep::Receiver { receiver, service_name } => {
            assert!(Arc::ptr_eq(&receiver.socket, &b));
            assert_eq!((receiver.domain, receiver.index), (IP::Ipv6, 0));
            assert_eq!(service_name, &service);
        }
        other => panic!("unexpected {:?}", other),
    }
}

#[test]
fn spawn_plan_without_sockets() {
    let service = Name::from_ascii("_swarm._udp.local.").expect("name");
    let plan = spawn_plan(&Vec::new(), &service);
    let names: Vec<String> = plan.iter().map(|s| s.actor_name()).collect();
    assert_eq!(names, vec!["updater", "sender"]);
    match &plan[1] {
        SpawnStep::Sender { sockets, .. } => assert!(sockets.is_empty()),
        other => panic!("unexpected {:?}", other),
    }
}
