# swarm_discovery (verified core)

The decision logic of an mDNS peer-discovery service, written in Verus.

- `src/net.rs`: IP addresses as integers, the mDNS port and groups, `IpClass`.
- `src/socket.rs`: the steps that set up an IPv4 or IPv6 mDNS socket
  (`SocketSetup`), and the `SocketError` each failing step is reported as.
- `src/sockets.rs`: which sockets a service keeps (`Sockets::new`,
  `Sockets::new_for_interface`) and how an outgoing message is routed
  (`Sockets::send_msg`, `Mode`).
- `src/guardian.rs`: the supervising actor's decisions: the actors it starts
  (updater, sender, one receiver per socket), their names, order and
  arguments, and its answer to each input.
- `app/`: the system calls (socket2, tokio), the async send, the actor loop
  (acto) and error types with `Display`.
