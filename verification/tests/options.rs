use tcp_lifecycle::address::{IpAddress, IpAddressFamily, IpSocketAddress};
use tcp_lifecycle::error::ErrorCode;
use tcp_lifecycle::model::{
    DEFAULT_BUFFER_SIZE, DEFAULT_LISTEN_BACKLOG_SIZE, DEFAULT_UNICAST_HOP_LIMIT,
};
use tcp_lifecycle::network::Network;
use tcp_lifecycle::tcp::TcpSocket;

fn lo(family: IpAddressFamily, port: u16) -> IpSocketAddress {
    IpSocketAddress::new(IpAddress::new_loopback(family), port)
}

/// One socket in each of the seven states, of one family.
fn one_of_each(family: IpAddressFamily) -> Vec<TcpSocket> {
    let net = Network::default();
    let mut socks = Vec::new();
    for stage in 0..7 {
        let mut sock = TcpSocket::new(family).unwrap();
        if stage >= 1 {
            sock.start_bind(&net, lo(family, 0)).unwrap();
        }
        if stage >= 2 {
            sock.finish_bind(Ok(lo(family, 4000))).unwrap();
        }
        if stage == 3 {
            sock.start_listen().unwrap();
        }
        if stage == 4 {
            sock.blocking_listen(&vec![Ok(())]).unwrap();
        }
        if stage == 5 {
            sock.start_connect(&net, lo(family, 80)).unwrap();
        }
        if stage == 6 {
            sock.blocking_connect(&net, lo(family, 80), &vec![Ok(())]).unwrap();
        }
        socks.push(sock);
    }
    socks
}

#[test]
fn new_socket_has_the_initial_options() {
    let sock = TcpSocket::new(IpAddressFamily::Ipv6).unwrap();
    assert_eq!(sock.ipv6_only(), Ok(false));
    assert_eq!(sock.listen_backlog_size(), Ok(128));
    assert_eq!(sock.keep_alive(), Ok(false));
    assert_eq!(sock.unicast_hop_limit(), Ok(64));
    assert_eq!(sock.receive_buffer_size(), Ok(65536));
    assert_eq!(sock.send_buffer_size(), Ok(65536));
    assert_eq!(DEFAULT_LISTEN_BACKLOG_SIZE, 128);
    assert_eq!(DEFAULT_UNICAST_HOP_LIMIT, 64);
    assert_eq!(DEFAULT_BUFFER_SIZE, 65536);
}

#[test]
fn ipv6_only_is_not_supported_on_ipv4_in_every_state() {
    for mut sock in one_of_each(IpAddressFamily::Ipv4) {
        let before = sock.state();
        assert_eq!(sock.ipv6_only(), Err(ErrorCode::NotSupported));
        assert_eq!(sock.set_ipv6_only(true), Err(ErrorCode::NotSupported));
        assert_eq!(sock.set_ipv6_only(false), Err(ErrorCode::NotSupported));
        assert_eq!(sock.state(), before);
    }
}

#[test]
fn ipv6_only_is_set_only_while_unbound() {
    let mut socks = one_of_each(IpAddressFamily::Ipv6);
    let mut unbound = socks.remove(0);
    assert_eq!(unbound.set_ipv6_only(true), Ok(()));
    assert_eq!(unbound.ipv6_only(), Ok(true));
    assert_eq!(unbound.set_ipv6_only(false), Ok(()));
    assert_eq!(unbound.ipv6_only(), Ok(false));
    for mut sock in socks {
        assert_eq!(sock.ipv6_only(), Ok(false));
        assert_eq!(sock.set_ipv6_only(true), Err(ErrorCode::InvalidState));
        assert_eq!(sock.ipv6_only(), Ok(false));
    }
}

#[test]
fn ipv6_only_set_before_bind_is_kept() {
    let net = Network::default();
    let family = IpAddressFamily::Ipv6;
    let mut sock = TcpSocket::new(family).unwrap();
    sock.set_ipv6_only(true).unwrap();
    sock.blocking_bind(&net, lo(family, 0), &vec![Ok(lo(family, 4000))]).unwrap();
    assert_eq!(sock.ipv6_only(), Ok(true));
}

#[test]
fn socket_level_options_are_set_in_every_state() {
    for family in [IpAddressFamily::Ipv4, IpAddressFamily::Ipv6] {
        for mut sock in one_of_each(family) {
            let before = sock.state();
            assert_eq!(sock.set_keep_alive(true), Ok(()));
            assert_eq!(sock.keep_alive(), Ok(true));
            assert_eq!(sock.set_keep_alive(false), Ok(()));
            assert_eq!(sock.keep_alive(), Ok(false));
            assert_eq!(sock.set_unicast_hop_limit(255), Ok(()));
            assert_eq!(sock.unicast_hop_limit(), Ok(255));
            assert_eq!(sock.set_receive_buffer_size(16000), Ok(()));
            assert_eq!(sock.receive_buffer_size(), Ok(16000));
            assert_eq!(sock.set_send_buffer_size(16001), Ok(()));
            assert_eq!(sock.send_buffer_size(), Ok(16001));
            assert_eq!(sock.receive_buffer_size(), Ok(16000));
            assert_eq!(sock.set_listen_backlog_size(32), Ok(()));
            assert_eq!(sock.listen_backlog_size(), Ok(32));
            assert_eq!(sock.state(), before);
            assert_eq!(sock.address_family(), family);
        }
    }
}

#[test]
fn setters_accept_the_extreme_values() {
    let mut sock = TcpSocket::new(IpAddressFamily::Ipv4).unwrap();
    assert_eq!(sock.set_unicast_hop_limit(0), Ok(()));
    assert_eq!(sock.unicast_hop_limit(), Ok(0));
    assert_eq!(sock.set_receive_buffer_size(0), Ok(()));
    assert_eq!(sock.set_send_buffer_size(u64::MAX), Ok(()));
    assert_eq!(sock.send_buffer_size(), Ok(u64::MAX));
    assert_eq!(sock.set_listen_backlog_size(0), Ok(()));
    assert_eq!(sock.listen_backlog_size(), Ok(0));
}
