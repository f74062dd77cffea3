use tcp_lifecycle::address::{IpAddress, IpAddressFamily, IpSocketAddress};
use tcp_lifecycle::error::ErrorCode;
use tcp_lifecycle::model::{PendingOperation, ShutdownType, SocketState};
use tcp_lifecycle::network::Network;
use tcp_lifecycle::tcp::TcpSocket;

const FAMILIES: [IpAddressFamily; 2] = [IpAddressFamily::Ipv4, IpAddressFamily::Ipv6];

fn lo(family: IpAddressFamily, port: u16) -> IpSocketAddress {
    IpSocketAddress::new(IpAddress::new_loopback(family), port)
}

fn unbound(family: IpAddressFamily) -> TcpSocket {
    TcpSocket::new(family).unwrap()
}

fn bound(family: IpAddressFamily, port: u16) -> TcpSocket {
    let net = Network::default();
    let mut sock = unbound(family);
    assert_eq!(sock.start_bind(&net, lo(family, 0)), Ok(()));
    assert_eq!(sock.finish_bind(Ok(lo(family, port))), Ok(()));
    sock
}

fn listening(family: IpAddressFamily, port: u16) -> TcpSocket {
    let mut sock = bound(family, port);
    assert_eq!(sock.start_listen(), Ok(()));
    assert_eq!(sock.finish_listen(Ok(())), Ok(()));
    sock
}

fn connected(family: IpAddressFamily, port: u16, remote: IpSocketAddress) -> TcpSocket {
    let net = Network::default();
    let mut sock = bound(family, port);
    assert_eq!(sock.start_connect(&net, remote), Ok(()));
    assert_eq!(sock.finish_connect(Ok(())), Ok(()));
    sock
}

#[test]
fn new_socket_is_unbound() {
    for family in FAMILIES {
        let sock = unbound(family);
        assert_eq!(sock.state(), SocketState::Unbound);
        assert_eq!(sock.address_family(), family);
        assert_eq!(sock.local_address(), Err(ErrorCode::InvalidState));
        assert_eq!(sock.remote_address(), Err(ErrorCode::InvalidState));
    }
}

#[test]
fn start_bind_is_legal_only_when_unbound() {
    let net = Network::default();
    for family in FAMILIES {
        let addr = lo(family, 0);
        let mut sock = unbound(family);
        assert_eq!(sock.start_bind(&net, addr), Ok(()));
        assert_eq!(sock.state(), SocketState::BindInProgress { requested: addr });
        let mut sock = bound(family, 4000);
        assert_eq!(sock.start_bind(&net, addr), Err(ErrorCode::InvalidState));
        assert_eq!(sock.state(), SocketState::Bound { local: lo(family, 4000) });
        let mut sock = listening(family, 4000);
        assert_eq!(sock.start_bind(&net, addr), Err(ErrorCode::InvalidState));
        assert_eq!(sock.state(), SocketState::Listening { local: lo(family, 4000) });
        let mut sock = connected(family, 4000, lo(family, 80));
        let before = sock.state();
        assert_eq!(sock.start_bind(&net, addr), Err(ErrorCode::InvalidState));
        assert_eq!(sock.state(), before);
    }
}

#[test]
fn start_connect_is_legal_only_when_bound() {
    let net = Network::default();
    for family in FAMILIES {
        let remote = lo(family, 80);
        let mut sock = unbound(family);
        assert_eq!(sock.start_connect(&net, remote), Err(ErrorCode::InvalidState));
        assert_eq!(sock.state(), SocketState::Unbound);
        let mut sock = bound(family, 4000);
        assert_eq!(sock.start_connect(&net, remote), Ok(()));
        assert_eq!(
            sock.state(),
            SocketState::ConnectInProgress { local: lo(family, 4000), remote }
        );
        let mut sock = listening(family, 4000);
        assert_eq!(sock.start_connect(&net, remote), Err(ErrorCode::InvalidState));
        let mut sock = connected(family, 4000, remote);
        assert_eq!(sock.start_connect(&net, remote), Err(ErrorCode::InvalidState));
    }
}

#[test]
fn start_listen_is_legal_only_when_bound() {
    for family in FAMILIES {
        let mut sock = unbound(family);
        assert_eq!(sock.start_listen(), Err(ErrorCode::InvalidState));
        assert_eq!(sock.state(), SocketState::Unbound);
        let mut sock = bound(family, 4000);
        assert_eq!(sock.start_listen(), Ok(()));
        assert_eq!(sock.state(), SocketState::ListenInProgress { local: lo(family, 4000) });
        let mut sock = listening(family, 4000);
        assert_eq!(sock.start_listen(), Err(ErrorCode::InvalidState));
        let mut sock = connected(family, 4000, lo(family, 80));
        assert_eq!(sock.start_listen(), Err(ErrorCode::InvalidState));
    }
}

#[test]
fn finish_without_start_is_not_in_progress_in_every_state() {
    for family in FAMILIES {
        let socks = vec![
            unbound(family),
            bound(family, 4000),
            listening(family, 4000),
            connected(family, 4000, lo(family, 80)),
        ];
        for mut sock in socks {
            let before = sock.state();
            assert_eq!(sock.finish_bind(Ok(lo(family, 1))), Err(ErrorCode::NotInProgress));
            assert_eq!(sock.finish_bind(Err(ErrorCode::InvalidState)), Err(ErrorCode::NotInProgress));
            assert_eq!(sock.finish_connect(Ok(())), Err(ErrorCode::NotInProgress));
            assert_eq!(sock.finish_connect(Err(ErrorCode::WouldBlock)), Err(ErrorCode::NotInProgress));
            assert_eq!(sock.finish_listen(Ok(())), Err(ErrorCode::NotInProgress));
            assert_eq!(sock.finish_listen(Err(ErrorCode::AddressInUse)), Err(ErrorCode::NotInProgress));
            assert_eq!(sock.state(), before);
        }
    }
}

#[test]
fn finish_of_another_operation_is_not_in_progress() {
    let net = Network::default();
    let family = IpAddressFamily::Ipv4;
    let mut sock = unbound(family);
    sock.start_bind(&net, lo(family, 0)).unwrap();
    assert_eq!(sock.finish_connect(Ok(())), Err(ErrorCode::NotInProgress));
    assert_eq!(sock.finish_listen(Ok(())), Err(ErrorCode::NotInProgress));
    assert_eq!(sock.state(), SocketState::BindInProgress { requested: lo(family, 0) });
    let mut sock = bound(family, 4000);
    sock.start_connect(&net, lo(family, 80)).unwrap();
    assert_eq!(sock.finish_bind(Ok(lo(family, 1))), Err(ErrorCode::NotInProgress));
    assert_eq!(sock.finish_listen(Ok(())), Err(ErrorCode::NotInProgress));
    let mut sock = bound(family, 4000);
    sock.start_listen().unwrap();
    assert_eq!(sock.finish_bind(Ok(lo(family, 1))), Err(ErrorCode::NotInProgress));
    assert_eq!(sock.finish_connect(Ok(())), Err(ErrorCode::NotInProgress));
    assert_eq!(sock.state(), SocketState::ListenInProgress { local: lo(family, 4000) });
}

#[test]
fn only_one_operation_may_be_pending() {
    let net = Network::default();
    let family = IpAddressFamily::Ipv6;
    let mut sock = bound(family, 4000);
    sock.start_connect(&net, lo(family, 80)).unwrap();
    let pending = sock.state();
    assert_eq!(sock.start_bind(&net, lo(family, 0)), Err(ErrorCode::InvalidState));
    assert_eq!(sock.start_connect(&net, lo(family, 81)), Err(ErrorCode::InvalidState));
    assert_eq!(sock.start_listen(), Err(ErrorCode::InvalidState));
    assert_eq!(sock.accept(Ok(lo(family, 9))).unwrap_err(), ErrorCode::InvalidState);
    assert_eq!(sock.shutdown(ShutdownType::Both), Err(ErrorCode::InvalidState));
    assert_eq!(sock.local_address(), Err(ErrorCode::InvalidState));
    assert_eq!(sock.remote_address(), Err(ErrorCode::InvalidState));
    assert_eq!(sock.state(), pending);
}

#[test]
fn finish_bind_takes_the_resolved_address() {
    let net = Network::default();
    let family = IpAddressFamily::Ipv4;
    let mut sock = unbound(family);
    sock.start_bind(&net, lo(family, 0)).unwrap();
    assert_eq!(sock.finish_bind(Err(ErrorCode::WouldBlock)), Err(ErrorCode::WouldBlock));
    assert_eq!(sock.state(), SocketState::BindInProgress { requested: lo(family, 0) });
    assert_eq!(sock.finish_bind(Ok(lo(family, 51515))), Ok(()));
    assert_eq!(sock.state(), SocketState::Bound { local: lo(family, 51515) });
    assert_eq!(sock.local_address(), Ok(lo(family, 51515)));
    assert_eq!(sock.remote_address(), Err(ErrorCode::InvalidState));
}

#[test]
fn failed_bind_returns_to_unbound() {
    let net = Network::default();
    let family = IpAddressFamily::Ipv4;
    let mut sock = unbound(family);
    sock.start_bind(&net, lo(family, 80)).unwrap();
    assert_eq!(sock.finish_bind(Err(ErrorCode::AddressInUse)), Err(ErrorCode::AddressInUse));
    assert_eq!(sock.state(), SocketState::Unbound);
    assert_eq!(sock.start_bind(&net, lo(family, 81)), Ok(()));
}

#[test]
fn failed_connect_returns_to_bound() {
    let net = Network::default();
    let family = IpAddressFamily::Ipv4;
    let mut sock = bound(family, 4000);
    sock.start_connect(&net, lo(family, 80)).unwrap();
    assert_eq!(sock.finish_connect(Err(ErrorCode::WouldBlock)), Err(ErrorCode::WouldBlock));
    assert_eq!(
        sock.state(),
        SocketState::ConnectInProgress { local: lo(family, 4000), remote: lo(family, 80) }
    );
    assert_eq!(
        sock.finish_connect(Err(ErrorCode::ConnectionRefused)),
        Err(ErrorCode::ConnectionRefused)
    );
    assert_eq!(sock.state(), SocketState::Bound { local: lo(family, 4000) });
    assert_eq!(sock.local_address(), Ok(lo(family, 4000)));
    assert_eq!(sock.start_connect(&net, lo(family, 81)), Ok(()));
    assert_eq!(sock.finish_connect(Ok(())), Ok(()));
    assert_eq!(sock.remote_address(), Ok(lo(family, 81)));
}

#[test]
fn failed_listen_returns_to_bound() {
    let family = IpAddressFamily::Ipv6;
    let mut sock = bound(family, 4000);
    sock.start_listen().unwrap();
    assert_eq!(sock.finish_listen(Err(ErrorCode::AddressInUse)), Err(ErrorCode::AddressInUse));
    assert_eq!(sock.state(), SocketState::Bound { local: lo(family, 4000) });
}

#[test]
fn every_platform_error_is_passed_on() {
    let net = Network::default();
    let family = IpAddressFamily::Ipv4;
    let errors = [
        ErrorCode::Unknown,
        ErrorCode::AccessDenied,
        ErrorCode::NotSupported,
        ErrorCode::InvalidArgument,
        ErrorCode::OutOfMemory,
        ErrorCode::Timeout,
        ErrorCode::ConcurrencyConflict,
        ErrorCode::NotInProgress,
        ErrorCode::WouldBlock,
        ErrorCode::InvalidState,
        ErrorCode::NewSocketLimit,
        ErrorCode::AddressNotBindable,
        ErrorCode::AddressInUse,
        ErrorCode::RemoteUnreachable,
        ErrorCode::ConnectionRefused,
        ErrorCode::ConnectionReset,
        ErrorCode::ConnectionAborted,
        ErrorCode::DatagramTooLarge,
        ErrorCode::NameUnresolvable,
        ErrorCode::TemporaryResolverFailure,
        ErrorCode::PermanentResolverFailure,
    ];
    for e in errors {
        let mut sock = bound(family, 4000);
        sock.start_connect(&net, lo(family, 80)).unwrap();
        assert_eq!(sock.finish_connect(Err(e)), Err(e));
        if e == ErrorCode::WouldBlock {
            assert!(matches!(sock.state(), SocketState::ConnectInProgress { .. }));
        } else {
            assert_eq!(sock.state(), SocketState::Bound { local: lo(family, 4000) });
        }
        let listener = listening(family, 4000);
        assert_eq!(listener.accept(Err(e)).unwrap_err(), e);
        assert_eq!(e.transient(), e == ErrorCode::WouldBlock);
        assert_eq!(e.misuse(), e == ErrorCode::InvalidState || e == ErrorCode::NotInProgress);
    }
}

#[test]
fn accept_is_legal_only_when_listening() {
    for family in FAMILIES {
        let peer = lo(family, 60000);
        assert_eq!(unbound(family).accept(Ok(peer)).unwrap_err(), ErrorCode::InvalidState);
        assert_eq!(bound(family, 4000).accept(Ok(peer)).unwrap_err(), ErrorCode::InvalidState);
        assert_eq!(
            connected(family, 4000, lo(family, 80)).accept(Ok(peer)).unwrap_err(),
            ErrorCode::InvalidState
        );
        let listener = listening(family, 4000);
        let accepted = listener.accept(Ok(peer)).unwrap();
        assert_eq!(
            accepted.state(),
            SocketState::Connected {
                local: lo(family, 4000),
                remote: peer,
                receive_shut: false,
                send_shut: false
            }
        );
        assert_eq!(accepted.address_family(), family);
        assert_eq!(accepted.remote_address(), Ok(peer));
        assert_ne!(accepted.remote_address(), listener.local_address());
        assert_eq!(listener.state(), SocketState::Listening { local: lo(family, 4000) });
    }
}

#[test]
fn accepted_socket_outlives_the_listener() {
    let family = IpAddressFamily::Ipv4;
    let listener = listening(family, 4000);
    let mut accepted = listener.accept(Ok(lo(family, 60000))).unwrap();
    drop(listener);
    assert_eq!(accepted.remote_address(), Ok(lo(family, 60000)));
    assert_eq!(accepted.shutdown(ShutdownType::Send), Ok(()));
}

#[test]
fn accepted_socket_starts_with_the_listeners_options() {
    let family = IpAddressFamily::Ipv4;
    let mut listener = listening(family, 4000);
    listener.set_keep_alive(true).unwrap();
    listener.set_unicast_hop_limit(9).unwrap();
    let accepted = listener.accept(Ok(lo(family, 60000))).unwrap();
    assert_eq!(accepted.keep_alive(), Ok(true));
    assert_eq!(accepted.unicast_hop_limit(), Ok(9));
}

#[test]
fn shutdown_is_legal_only_when_connected() {
    for family in FAMILIES {
        assert_eq!(unbound(family).shutdown(ShutdownType::Both), Err(ErrorCode::InvalidState));
        assert_eq!(bound(family, 1).shutdown(ShutdownType::Receive), Err(ErrorCode::InvalidState));
        assert_eq!(listening(family, 1).shutdown(ShutdownType::Send), Err(ErrorCode::InvalidState));
        let mut sock = connected(family, 4000, lo(family, 80));
        assert_eq!(sock.shutdown(ShutdownType::Both), Ok(()));
        assert_eq!(sock.local_address(), Ok(lo(family, 4000)));
        assert_eq!(sock.remote_address(), Ok(lo(family, 80)));
    }
}

#[test]
fn shutdown_closes_the_named_halves() {
    let family = IpAddressFamily::Ipv4;
    let local = lo(family, 4000);
    let remote = lo(family, 80);
    let mut sock = connected(family, 4000, remote);
    sock.shutdown(ShutdownType::Receive).unwrap();
    assert_eq!(
        sock.state(),
        SocketState::Connected { local, remote, receive_shut: true, send_shut: false }
    );
    sock.shutdown(ShutdownType::Send).unwrap();
    assert_eq!(
        sock.state(),
        SocketState::Connected { local, remote, receive_shut: true, send_shut: true }
    );
    let mut sock = connected(family, 4000, remote);
    sock.shutdown(ShutdownType::Send).unwrap();
    assert_eq!(
        sock.state(),
        SocketState::Connected { local, remote, receive_shut: false, send_shut: true }
    );
    sock.shutdown(ShutdownType::Send).unwrap();
    assert_eq!(
        sock.state(),
        SocketState::Connected { local, remote, receive_shut: false, send_shut: true }
    );
    let mut sock = connected(family, 4000, remote);
    sock.shutdown(ShutdownType::Both).unwrap();
    assert_eq!(
        sock.state(),
        SocketState::Connected { local, remote, receive_shut: true, send_shut: true }
    );
}

#[test]
fn addresses_are_known_by_state() {
    for family in FAMILIES {
        let sock = bound(family, 4000);
        assert_eq!(sock.local_address(), Ok(lo(family, 4000)));
        assert_eq!(sock.remote_address(), Err(ErrorCode::InvalidState));
        let sock = listening(family, 4000);
        assert_eq!(sock.local_address(), Ok(lo(family, 4000)));
        assert_eq!(sock.remote_address(), Err(ErrorCode::InvalidState));
        let sock = connected(family, 4000, lo(family, 80));
        assert_eq!(sock.local_address(), Ok(lo(family, 4000)));
        assert_eq!(sock.remote_address(), Ok(lo(family, 80)));
        assert_eq!(sock.address_family(), family);
    }
}

#[test]
fn blocking_bind_polls_until_settled() {
    let net = Network::default();
    let family = IpAddressFamily::Ipv4;
    let mut sock = unbound(family);
    let polls = vec![
        Err(ErrorCode::WouldBlock),
        Err(ErrorCode::WouldBlock),
        Ok(lo(family, 50000)),
        Err(ErrorCode::AddressInUse),
        Ok(lo(family, 50001)),
    ];
    assert_eq!(sock.blocking_bind(&net, lo(family, 0), &polls), Ok(()));
    assert_eq!(sock.local_address(), Ok(lo(family, 50000)));
    assert_eq!(sock.remote_address(), Err(ErrorCode::InvalidState));
}

#[test]
fn blocking_bind_stays_pending_when_polls_run_out() {
    let net = Network::default();
    let family = IpAddressFamily::Ipv4;
    let mut sock = unbound(family);
    assert_eq!(sock.blocking_bind(&net, lo(family, 0), &vec![]), Err(ErrorCode::WouldBlock));
    assert_eq!(sock.state(), SocketState::BindInProgress { requested: lo(family, 0) });
    assert_eq!(sock.finish_bind(Ok(lo(family, 50000))), Ok(()));
    let mut sock = unbound(family);
    let polls = vec![Err(ErrorCode::WouldBlock), Err(ErrorCode::WouldBlock)];
    assert_eq!(sock.blocking_bind(&net, lo(family, 0), &polls), Err(ErrorCode::WouldBlock));
    assert_eq!(sock.state(), SocketState::BindInProgress { requested: lo(family, 0) });
}

#[test]
fn blocking_bind_is_refused_when_not_unbound() {
    let net = Network::default();
    let family = IpAddressFamily::Ipv4;
    let mut sock = bound(family, 4000);
    let polls = vec![Ok(lo(family, 50000))];
    assert_eq!(sock.blocking_bind(&net, lo(family, 0), &polls), Err(ErrorCode::InvalidState));
    assert_eq!(sock.state(), SocketState::Bound { local: lo(family, 4000) });
    let mut sock = unbound(family);
    sock.start_bind(&net, lo(family, 0)).unwrap();
    assert_eq!(sock.blocking_bind(&net, lo(family, 1), &polls), Err(ErrorCode::InvalidState));
    assert_eq!(sock.state(), SocketState::BindInProgress { requested: lo(family, 0) });
}

#[test]
fn blocking_bind_passes_the_refusal_on() {
    let net = Network::default();
    let family = IpAddressFamily::Ipv6;
    let mut sock = unbound(family);
    let polls = vec![Err(ErrorCode::WouldBlock), Err(ErrorCode::AddressNotBindable)];
    assert_eq!(sock.blocking_bind(&net, lo(family, 0), &polls), Err(ErrorCode::AddressNotBindable));
    assert_eq!(sock.state(), SocketState::Unbound);
}

#[test]
fn blocking_listen_polls_until_settled() {
    let family = IpAddressFamily::Ipv4;
    let mut sock = bound(family, 4000);
    let polls = vec![Err(ErrorCode::WouldBlock), Ok(()), Err(ErrorCode::Unknown)];
    assert_eq!(sock.blocking_listen(&polls), Ok(()));
    assert_eq!(sock.state(), SocketState::Listening { local: lo(family, 4000) });
    let mut sock = unbound(family);
    assert_eq!(sock.blocking_listen(&polls), Err(ErrorCode::InvalidState));
    assert_eq!(sock.state(), SocketState::Unbound);
    let mut sock = bound(family, 4000);
    assert_eq!(sock.blocking_listen(&vec![Err(ErrorCode::WouldBlock)]), Err(ErrorCode::WouldBlock));
    assert_eq!(sock.state(), SocketState::ListenInProgress { local: lo(family, 4000) });
}

#[test]
fn blocking_connect_polls_until_settled() {
    let net = Network::default();
    for family in FAMILIES {
        let mut sock = bound(family, 4000);
        let polls = vec![Err(ErrorCode::WouldBlock), Ok(())];
        assert_eq!(sock.blocking_connect(&net, lo(family, 80), &polls), Ok(()));
        assert_eq!(sock.local_address(), Ok(lo(family, 4000)));
        assert_eq!(sock.remote_address(), Ok(lo(family, 80)));
        assert_eq!(sock.address_family(), family);
    }
}

#[test]
fn blocking_connect_failure_keeps_the_binding() {
    let net = Network::default();
    let family = IpAddressFamily::Ipv4;
    let mut sock = bound(family, 4000);
    let polls = vec![Err(ErrorCode::WouldBlock), Err(ErrorCode::ConnectionRefused), Ok(())];
    assert_eq!(
        sock.blocking_connect(&net, lo(family, 80), &polls),
        Err(ErrorCode::ConnectionRefused)
    );
    assert_eq!(sock.state(), SocketState::Bound { local: lo(family, 4000) });
    let mut sock = unbound(family);
    assert_eq!(sock.blocking_connect(&net, lo(family, 80), &polls), Err(ErrorCode::InvalidState));
    assert_eq!(sock.state(), SocketState::Unbound);
}

#[test]
fn listener_accepts_the_connecting_socket() {
    let net = Network::default();
    let family = IpAddressFamily::Ipv4;
    let any_port = lo(family, 0);

    let mut listener = TcpSocket::new(family).unwrap();
    assert_eq!(listener.start_bind(&net, any_port), Ok(()));
    assert_eq!(listener.finish_bind(Err(ErrorCode::WouldBlock)), Err(ErrorCode::WouldBlock));
    assert_eq!(listener.finish_bind(Ok(lo(family, 40404))), Ok(()));
    assert_eq!(listener.start_listen(), Ok(()));
    assert_eq!(listener.finish_listen(Err(ErrorCode::WouldBlock)), Err(ErrorCode::WouldBlock));
    assert_eq!(listener.finish_listen(Ok(())), Ok(()));
    let listener_address = listener.local_address().unwrap();
    assert_eq!(listener_address, lo(family, 40404));

    let mut client = TcpSocket::new(family).unwrap();
    assert_eq!(client.blocking_bind(&net, any_port, &vec![Ok(lo(family, 50505))]), Ok(()));
    let polls = vec![Err(ErrorCode::WouldBlock), Ok(())];
    assert_eq!(client.blocking_connect(&net, listener_address, &polls), Ok(()));
    assert_eq!(client.remote_address(), Ok(listener_address));

    assert_eq!(listener.accept(Err(ErrorCode::WouldBlock)).unwrap_err(), ErrorCode::WouldBlock);
    let accepted = listener.accept(client.local_address()).unwrap();
    assert!(matches!(accepted.state(), SocketState::Connected { .. }));
    assert_eq!(accepted.remote_address(), client.local_address());
    assert_eq!(accepted.remote_address(), Ok(lo(family, 50505)));
    assert_eq!(accepted.local_address(), Ok(listener_address));
    assert_ne!(accepted.remote_address(), listener.local_address());
    assert!(matches!(listener.state(), SocketState::Listening { .. }));
}

#[test]
fn pending_operation_follows_the_state() {
    let net = Network::default();
    let family = IpAddressFamily::Ipv4;
    let mut sock = unbound(family);
    assert_eq!(sock.pending_operation(), None);
    sock.start_bind(&net, lo(family, 0)).unwrap();
    assert_eq!(sock.pending_operation(), Some(PendingOperation::Bind));
    sock.finish_bind(Ok(lo(family, 4000))).unwrap();
    assert_eq!(sock.pending_operation(), None);
    sock.start_connect(&net, lo(family, 80)).unwrap();
    assert_eq!(sock.pending_operation(), Some(PendingOperation::Connect));
    sock.finish_connect(Err(ErrorCode::Timeout)).unwrap_err();
    assert_eq!(sock.pending_operation(), None);
    sock.start_listen().unwrap();
    assert_eq!(sock.pending_operation(), Some(PendingOperation::Listen));
    sock.finish_listen(Ok(())).unwrap();
    assert_eq!(sock.pending_operation(), None);
    assert_eq!(connected(family, 1, lo(family, 2)).pending_operation(), None);
}

#[test]
fn accept_after_blocking_listen_gives_a_connected_socket() {
    for family in FAMILIES {
        let mut listener = bound(family, 4000);
        let polls = vec![Err(ErrorCode::WouldBlock), Err(ErrorCode::WouldBlock), Ok(())];
        assert_eq!(listener.blocking_listen(&polls), Ok(()));
        let accepted = listener.accept(Ok(lo(family, 61000))).unwrap();
        assert!(matches!(accepted.state(), SocketState::Connected { .. }));
        assert_eq!(accepted.remote_address(), Ok(lo(family, 61000)));
        assert_ne!(accepted.remote_address(), listener.local_address());
        assert_eq!(accepted.pending_operation(), None);
    }
}

#[test]
fn after_blocking_bind_only_the_local_address_is_known() {
    let net = Network::default();
    for family in FAMILIES {
        let mut sock = unbound(family);
        assert_eq!(sock.blocking_bind(&net, lo(family, 0), &vec![Ok(lo(family, 33333))]), Ok(()));
        assert_eq!(sock.local_address(), Ok(lo(family, 33333)));
        assert_eq!(sock.remote_address(), Err(ErrorCode::InvalidState));
        assert_eq!(sock.address_family(), family);
    }
}
