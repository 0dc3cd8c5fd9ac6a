//! The decisions of the guardian, the actor that supervises a discovery
//! service: which receivers it starts, under which names, and what it does
//! with each input it gets. Spawning and message passing are up to the caller.
use std::sync::Arc;

use hickory_proto::rr::Name;
use tokio::net::UdpSocket;
use vstd::prelude::*;

use crate::net::IpAddr;
use crate::socket::IP;
use crate::sockets::Sockets;

verus! {

#[verifier::external_type_specification]
#[verifier::external_body]
pub struct ExName(hickory_proto::rr::Name);

/// `Name::clone` (hickory-proto, derived): an equal domain name.
#[verifier::external_body]
fn copy_name(name: &Name) -> (r: Name)
    ensures
        r == *name,
{
    name.clone()
}

/// A change to what the service announces.
#[derive(Debug)]
pub enum Input {
    RemoveAll,
    RemovePort(u16),
    RemoveAddr(IpAddr),
    AddAddr(u16, Vec<IpAddr>),
    SetTxt(String, Option<String>),
    RemoveTxt(String),
}

/// How a supervised actor ended.
#[derive(Debug)]
pub enum ActorOutcome {
    /// It returned normally.
    Stopped,
    /// It returned an error, shown as the text.
    Failed(String),
    /// It panicked or was aborted, with the text given.
    Aborted(String),
}

/// What the guardian can receive.
#[derive(Debug)]
pub enum GuardianEvent {
    /// No one holds a handle to the guardian any more.
    NoMoreSenders,
    /// A supervised actor, of the given name, has ended.
    Supervision { name: String, outcome: ActorOutcome },
    /// A change for the sender actor.
    Message(Input),
}

/// What the guardian does about an event.
#[derive(Debug)]
pub enum GuardianAction {
    /// Keep waiting for the next event.
    Wait,
    /// Pass the change on to the sender as an update.
    Forward(Input),
    /// Report that the named actor ended, and stop.
    Stop { name: String, outcome: ActorOutcome },
}

/// The guardian's answer to `event`: it keeps running when its own handles
/// are gone, forwards every change unaltered, and stops as soon as any
/// supervised actor has ended, whichever way.
pub fn guardian_step(event: GuardianEvent) -> (a: GuardianAction)
    ensures
        match event {
            GuardianEvent::NoMoreSenders => a is Wait,
            GuardianEvent::Supervision { name, outcome } => a == (GuardianAction::Stop { name, outcome }),
            GuardianEvent::Message(input) => a == GuardianAction::Forward(input),
        },
{
    match event {
        GuardianEvent::NoMoreSenders => GuardianAction::Wait,
        GuardianEvent::Supervision { name, outcome } => GuardianAction::Stop { name, outcome },
        GuardianEvent::Message(input) => GuardianAction::Forward(input),
    }
}

/// The decimal digit `d` as a character.
pub open spec fn digit_char(d: nat) -> char {
    if d == 0 {
        '0'
    } else if d == 1 {
        '1'
    } else if d == 2 {
        '2'
    } else if d == 3 {
        '3'
    } else if d == 4 {
        '4'
    } else if d == 5 {
        '5'
    } else if d == 6 {
        '6'
    } else if d == 7 {
        '7'
    } else if d == 8 {
        '8'
    } else {
        '9'
    }
}

/// The value of a decimal digit character.
pub open spec fn char_digit(c: char) -> nat {
    if c == '1' {
        1
    } else if c == '2' {
        2
    } else if c == '3' {
        3
    } else if c == '4' {
        4
    } else if c == '5' {
        5
    } else if c == '6' {
        6
    } else if c == '7' {
        7
    } else if c == '8' {
        8
    } else if c == '9' {
        9
    } else {
        0
    }
}

/// `n` written in decimal, without leading zeros.
pub open spec fn decimal(n: nat) -> Seq<char>
    decreases n,
{
    if n < 10 {
        seq![digit_char(n)]
    } else {
        decimal(n / 10) + seq![digit_char(n % 10)]
    }
}

/// The number that a string of decimal digits stands for.
pub open spec fn digits_value(s: Seq<char>) -> nat
    decreases s.len(),
{
    if s.len() == 0 {
        0
    } else {
        digits_value(s.drop_last()) * 10 + char_digit(s.last())
    }
}

/// Reading back a number written in decimal gives the number.
pub proof fn lemma_decimal_value(n: nat)
    ensures
        digits_value(decimal(n)) == n,
    decreases n,
{
    let d = n % 10;
    assert(char_digit(digit_char(d)) == d);
    if n >= 10 {
        lemma_decimal_value(n / 10);
        assert(decimal(n).drop_last() =~= decimal(n / 10));
        assert(decimal(n).last() == digit_char(d));
        assert((n / 10) * 10 + d == n);
    } else {
        assert(decimal(n).drop_last() =~= Seq::<char>::empty());
        assert(digits_value(Seq::<char>::empty()) == 0);
    }
}

/// Different numbers are written differently.
pub proof fn lemma_decimal_injective(m: nat, n: nat)
    requires
        decimal(m) == decimal(n),
    ensures
        m == n,
{
    lemma_decimal_value(m);
    lemma_decimal_value(n);
}

/// The name a receiver gets: its family and the position of its socket set.
pub open spec fn receiver_name(domain: IP, index: nat) -> Seq<char> {
    match domain {
        IP::Ipv4 => "receiver_v4_"@ + decimal(index),
        IP::Ipv6 => "receiver_v6_"@ + decimal(index),
    }
}

/// A digit as a string of one character.
fn digit_str(d: usize) -> (s: &'static str)
    requires
        d < 10,
    ensures
        s@ == seq![digit_char(d as nat)],
{
    proof {
        reveal_strlit("0");
        reveal_strlit("1");
        reveal_strlit("2");
        reveal_strlit("3");
        reveal_strlit("4");
        reveal_strlit("5");
        reveal_strlit("6");
        reveal_strlit("7");
        reveal_strlit("8");
        reveal_strlit("9");
    }
    if d == 0 {
        "0"
    } else if d == 1 {
        "1"
    } else if d == 2 {
        "2"
    } else if d == 3 {
        "3"
    } else if d == 4 {
        "4"
    } else if d == 5 {
        "5"
    } else if d == 6 {
        "6"
    } else if d == 7 {
        "7"
    } else if d == 8 {
        "8"
    } else {
        "9"
    }
}

/// Appends `n` in decimal to `out`.
fn push_decimal(out: &mut String, n: usize)
    ensures
        final(out)@ == old(out)@ + decimal(n as nat),
    decreases n,
{
    if n >= 10 {
        push_decimal(out, n / 10);
    }
    out.append(digit_str(n % 10));
    proof {
        if n >= 10 {
            assert(old(out)@ + decimal(n as nat) =~= old(out)@ + decimal((n / 10) as nat) + seq![
                digit_char((n % 10) as nat),
            ]);
        }
    }
}

/// `n` written in decimal.
pub fn to_decimal(n: usize) -> (s: String)
    ensures
        s@ == decimal(n as nat),
{
    let mut s = String::new();
    push_decimal(&mut s, n);
    assert(s@ =~= decimal(n as nat));
    s
}

/// The name of the receiver for the `domain` socket of the `index`-th set,
/// e.g. `receiver_v4_0`.
pub fn make_receiver_name(domain: IP, index: usize) -> (s: String)
    ensures
        s@ == receiver_name(domain, index as nat),
{
    let mut s = match domain {
        IP::Ipv4 => String::from_str("receiver_v4_"),
        IP::Ipv6 => String::from_str("receiver_v6_"),
    };
    push_decimal(&mut s, index);
    s
}

/// A receiver to start: its name, its family, the position of its socket set
/// and the socket it listens on.
#[derive(Debug)]
pub struct ReceiverSpawn {
    pub name: String,
    pub domain: IP,
    pub index: usize,
    pub socket: Arc<UdpSocket>,
}

/// The receivers for one socket set at position `index`: one per socket it
/// has, IPv4 first.
pub open spec fn set_receivers(index: nat, s: Sockets) -> Seq<(IP, nat, Arc<UdpSocket>)> {
    (match s.v4_slot() {
        Some(v4) => seq![(IP::Ipv4, index, v4)],
        None => Seq::empty(),
    }) + (match s.v6_slot() {
        Some(v6) => seq![(IP::Ipv6, index, v6)],
        None => Seq::empty(),
    })
}

/// The receivers for all socket sets, set by set in order.
pub open spec fn all_receivers(sets: Seq<Sockets>) -> Seq<(IP, nat, Arc<UdpSocket>)>
    decreases sets.len(),
{
    if sets.len() == 0 {
        Seq::empty()
    } else {
        all_receivers(sets.drop_last()) + set_receivers((sets.len() - 1) as nat, sets.last())
    }
}

/// The receivers that the guardian starts for `sets`: one for every socket
/// of every set, named after its family and the set's position.
pub fn receivers(sets: &Vec<Sockets>) -> (r: Vec<ReceiverSpawn>)
    ensures
        r.len() == all_receivers(sets@).len(),
        forall|k: int|
            #![trigger r@[k]]
            0 <= k < r.len() ==> {
                let e = all_receivers(sets@)[k];
                &&& r@[k].domain == e.0
                &&& r@[k].index == e.1
                &&& r@[k].socket == e.2
                &&& r@[k].name@ == receiver_name(e.0, e.1)
            },
{
    let mut out: Vec<ReceiverSpawn> = Vec::new();
    let n = sets.len();
    for i in 0..n
        invariant
            n == sets.len(),
            out.len() == all_receivers(sets@.take(i as int)).len(),
            forall|k: int|
                #![trigger out@[k]]
                0 <= k < out.len() ==> {
                    let e = all_receivers(sets@.take(i as int))[k];
                    &&& out@[k].domain == e.0
                    &&& out@[k].index == e.1
                    &&& out@[k].socket == e.2
                    &&& out@[k].name@ == receiver_name(e.0, e.1)
                },
    {
        let ghost prev = all_receivers(sets@.take(i as int));
        let ghost old_len = out.len();
        assert(sets@.take(i + 1).drop_last() =~= sets@.take(i as int));
        assert(sets@.take(i + 1).last() == sets@[i as int]);
        let set = &sets[i];
        match set.v4() {
            Some(socket) => {
                out.push(
                    ReceiverSpawn { name: make_receiver_name(IP::Ipv4, i), domain: IP::Ipv4, index: i, socket },
                );
            },
            None => {},
        }
        match set.v6() {
            Some(socket) => {
                out.push(
                    ReceiverSpawn { name: make_receiver_name(IP::Ipv6, i), domain: IP::Ipv6, index: i, socket },
                );
            },
            None => {},
        }
        assert(all_receivers(sets@.take(i + 1)) == prev + set_receivers(i as nat, sets@[i as int]));
    }
    assert(sets@.take(n as int) =~= sets@);
    out
}

/// An actor the guardian starts and supervises.
#[derive(Debug)]
pub enum SpawnStep {
    /// The updater, which tracks the discovered peers (it gets the
    /// discoverer's callback and timing).
    Updater,
    /// The sender, which gets all socket sets, the service name and the
    /// handle of the updater started before it.
    Sender { sockets: Vec<Sockets>, service_name: Name },
    /// A receiver, which gets the service name, its socket and the handle of
    /// the sender started before it.
    Receiver { receiver: ReceiverSpawn, service_name: Name },
}

/// The name an actor is started under.
pub open spec fn step_name(step: SpawnStep) -> Seq<char> {
    match step {
        SpawnStep::Updater => "updater"@,
        SpawnStep::Sender { .. } => "sender"@,
        SpawnStep::Receiver { receiver, .. } => receiver.name@,
    }
}

/// The name of the `k`-th actor the guardian starts for `sets`: the updater,
/// the sender, then the receivers in order.
pub open spec fn plan_name(sets: Seq<Sockets>, k: int) -> Seq<char> {
    if k == 0 {
        "updater"@
    } else if k == 1 {
        "sender"@
    } else {
        receiver_name(all_receivers(sets)[k - 2].0, all_receivers(sets)[k - 2].1)
    }
}

impl SpawnStep {
    /// The name this actor is started under.
    pub fn actor_name(&self) -> (s: String)
        ensures
            s@ == step_name(*self),
    {
        match self {
            SpawnStep::Updater => String::from_str("updater"),
            SpawnStep::Sender { .. } => String::from_str("sender"),
            SpawnStep::Receiver { receiver, .. } => receiver.name.clone(),
        }
    }
}

/// Every actor the guardian starts, in the order it starts them: the
/// updater, then the sender (with all socket sets), then one receiver per
/// socket as [`receivers`] lists them; the sender and every receiver get the
/// service name. With no socket sets only the updater and the sender start.
pub fn spawn_plan(sets: &Vec<Sockets>, service_name: &Name) -> (r: Vec<SpawnStep>)
    ensures
        r.len() == all_receivers(sets@).len() + 2,
        r@[0] is Updater,
        r@[1] matches SpawnStep::Sender { sockets, service_name: n } && sockets@ == sets@ && n
            == *service_name,
        forall|k: int|
            #![trigger r@[k]]
            2 <= k < r.len() ==> {
                let e = all_receivers(sets@)[k - 2];
                &&& r@[k] matches SpawnStep::Receiver { receiver, service_name: n }
                &&& n == *service_name
                &&& receiver.domain == e.0
                &&& receiver.index == e.1
                &&& receiver.socket == e.2
                &&& receiver.name@ == receiver_name(e.0, e.1)
            },
        forall|k: int| 0 <= k < r.len() ==> step_name(#[trigger] r@[k]) == plan_name(sets@, k),
{
    let mut all: Vec<Sockets> = Vec::new();
    let n = sets.len();
    for i in 0..n
        invariant
            n == sets.len(),
            all@ == sets@.take(i as int),
    {
        all.push(sets[i].clone());
        assert(all@ =~= sets@.take(i + 1));
    }
    assert(sets@.take(n as int) =~= sets@);
    let mut plan: Vec<SpawnStep> = Vec::new();
    plan.push(SpawnStep::Updater);
    plan.push(SpawnStep::Sender { sockets: all, service_name: copy_name(service_name) });
    let list = receivers(sets);
    let ghost recv = all_receivers(sets@);
    let mut rest = list;
    let mut j: usize = 0;
    let m = rest.len();
    while j < m
        invariant
            m == recv.len(),
            j <= m,
            rest.len() == m - j,
            plan.len() == j + 2,
            plan@[0] is Updater,
            plan@[1] matches SpawnStep::Sender { sockets, service_name: n } && sockets@ == sets@ && n
                == *service_name,
            forall|k: int|
                #![trigger rest@[k]]
                0 <= k < rest.len() ==> {
                    let e = recv[j + k];
                    &&& rest@[k].domain == e.0
                    &&& rest@[k].index == e.1
                    &&& rest@[k].socket == e.2
                    &&& rest@[k].name@ == receiver_name(e.0, e.1)
                },
            forall|k: int|
                #![trigger plan@[k]]
                2 <= k < plan.len() ==> {
                    let e = recv[k - 2];
                    &&& plan@[k] matches SpawnStep::Receiver { receiver, service_name: n }
                    &&& n == *service_name
                    &&& receiver.domain == e.0
                    &&& receiver.index == e.1
                    &&& receiver.socket == e.2
                    &&& receiver.name@ == receiver_name(e.0, e.1)
                },
        decreases m - j,
    {
        let receiver = rest.remove(0);
        plan.push(SpawnStep::Receiver { receiver, service_name: copy_name(service_name) });
        j = j + 1;
    }
    proof {
        reveal_strlit("updater");
        reveal_strlit("sender");
        assert forall|k: int| 0 <= k < plan.len() implies step_name(#[trigger] plan@[k]) == plan_name(
            sets@,
            k,
        ) by {
            if k >= 2 {
                assert(plan@[k] matches SpawnStep::Receiver { .. });
            }
        }
    }
    plan
}

/// The guardian starts all of its actors under pairwise different names.
pub proof fn lemma_actor_names_distinct(sets: Seq<Sockets>)
    ensures
        forall|k: int, l: int|
            0 <= k < l < all_receivers(sets).len() + 2 ==> #[trigger] plan_name(sets, k) != #[trigger] plan_name(
                sets,
                l,
            ),
{
    lemma_receiver_names_distinct(sets);
    reveal_strlit("updater");
    reveal_strlit("sender");
    reveal_strlit("receiver_v4_");
    reveal_strlit("receiver_v6_");
    assert forall|k: int, l: int| 0 <= k < l < all_receivers(sets).len() + 2 implies #[trigger] plan_name(
        sets,
        k,
    ) != #[trigger] plan_name(sets, l) by {
        if k == 0 && l == 1 {
            assert(plan_name(sets, k)[0] != plan_name(sets, l)[0]);
        } else if k <= 1 {
            let e = all_receivers(sets)[l - 2];
            let prefix = match e.0 {
                IP::Ipv4 => "receiver_v4_"@,
                IP::Ipv6 => "receiver_v6_"@,
            };
            assert(plan_name(sets, l) == prefix + decimal(e.1));
            assert(plan_name(sets, l)[0] == prefix[0]);
            assert(plan_name(sets, l)[0] != plan_name(sets, k)[0]);
        } else {
            let a = all_receivers(sets)[k - 2];
            let b = all_receivers(sets)[l - 2];
            assert(receiver_name(a.0, a.1) != receiver_name(b.0, b.1));
        }
    }
}

/// The two name prefixes have the same length and differ in the family digit.
proof fn lemma_name_prefixes()
    ensures
        "receiver_v4_"@.len() == 12,
        "receiver_v6_"@.len() == 12,
        "receiver_v4_"@[10] != "receiver_v6_"@[10],
{
    reveal_strlit("receiver_v4_");
    reveal_strlit("receiver_v6_");
}

/// Two receivers share a name only if they share family and position.
pub proof fn lemma_receiver_name_injective(d1: IP, i1: nat, d2: IP, i2: nat)
    requires
        receiver_name(d1, i1) == receiver_name(d2, i2),
    ensures
        d1 == d2,
        i1 == i2,
{
    lemma_name_prefixes();
    let n1 = receiver_name(d1, i1);
    let n2 = receiver_name(d2, i2);
    let p1 = match d1 {
        IP::Ipv4 => "receiver_v4_"@,
        IP::Ipv6 => "receiver_v6_"@,
    };
    let p2 = match d2 {
        IP::Ipv4 => "receiver_v4_"@,
        IP::Ipv6 => "receiver_v6_"@,
    };
    assert(n1 == p1 + decimal(i1));
    assert(n2 == p2 + decimal(i2));
    assert(n1[10] == p1[10]);
    assert(n2[10] == p2[10]);
    assert(n1.subrange(12, n1.len() as int) =~= decimal(i1));
    assert(n2.subrange(12, n2.len() as int) =~= decimal(i2));
    lemma_decimal_injective(i1, i2);
}

/// Every receiver for `sets` belongs to one of the sets, and no two of them
/// have the same family and set.
proof fn lemma_receivers_distinct_slots(sets: Seq<Sockets>)
    ensures
        forall|k: int| 0 <= k < all_receivers(sets).len() ==> #[trigger] all_receivers(sets)[k].1 < sets.len(),
        forall|k: int, l: int|
            0 <= k < l < all_receivers(sets).len() ==> (#[trigger] all_receivers(sets)[k]).0 != (
            #[trigger] all_receivers(sets)[l]).0 || all_receivers(sets)[k].1 != all_receivers(sets)[l].1,
    decreases sets.len(),
{
    if sets.len() > 0 {
        let prefix = sets.drop_last();
        let last = (sets.len() - 1) as nat;
        lemma_receivers_distinct_slots(prefix);
        let p = all_receivers(prefix);
        let q = set_receivers(last, sets.last());
        let all = all_receivers(sets);
        assert(all == p + q);
        assert forall|k: int| 0 <= k < q.len() implies #[trigger] q[k].1 == last by {}
        assert forall|k: int| 0 <= k < all.len() implies #[trigger] all[k].1 < sets.len() by {
            if k >= p.len() {
                assert(all[k] == q[k - p.len()]);
            } else {
                assert(all[k] == p[k]);
            }
        }
        assert forall|k: int, l: int|
            0 <= k < l < all.len() implies (#[trigger] all[k]).0 != (#[trigger] all[l]).0 || all[k].1
            != all[l].1 by {
            if l < p.len() {
                assert(all[k] == p[k] && all[l] == p[l]);
            } else if k < p.len() {
                assert(all[k] == p[k] && all[l] == q[l - p.len()]);
                assert(p[k].1 < prefix.len());
            } else {
                assert(all[k] == q[k - p.len()] && all[l] == q[l - p.len()]);
                assert(q.len() <= 2);
                assert(k - p.len() == 0 && l - p.len() == 1);
            }
        }
    }
}

/// The guardian starts its receivers under pairwise different names.
pub proof fn lemma_receiver_names_distinct(sets: Seq<Sockets>)
    ensures
        forall|k: int, l: int|
            0 <= k < l < all_receivers(sets).len() ==> receiver_name(
                (#[trigger] all_receivers(sets)[k]).0,
                all_receivers(sets)[k].1,
            ) != receiver_name((#[trigger] all_receivers(sets)[l]).0, all_receivers(sets)[l].1),
{
    lemma_receivers_distinct_slots(sets);
    assert forall|k: int, l: int| 0 <= k < l < all_receivers(sets).len() implies receiver_name(
        (#[trigger] all_receivers(sets)[k]).0,
        all_receivers(sets)[k].1,
    ) != receiver_name((#[trigger] all_receivers(sets)[l]).0, all_receivers(sets)[l].1) by {
        let a = all_receivers(sets)[k];
        let b = all_receivers(sets)[l];
        if receiver_name(a.0, a.1) == receiver_name(b.0, b.1) {
            lemma_receiver_name_injective(a.0, a.1, b.0, b.1);
        }
    }
}

} // verus!
