//! The invariants of the four settled states, probed on sockets.
//!
//! Each function brings a socket into one state and tries every operation that
//! must not move it out of that state. It hands the socket back if each
//! answered as the lifecycle prescribes, and nothing if one did not. The
//! contracts show that the socket always comes back, in the state it was put
//! in, for either family and whatever addresses the platform resolved.

use vstd::prelude::*;
use crate::address::{IpAddress, IpAddressFamily, IpSocketAddress};
use crate::blocking::first_settled_is_unique;
use crate::error::ErrorCode;
use crate::model::{
    ShutdownType, SocketModel, SocketOptions, SocketState, DEFAULT_LISTEN_BACKLOG_SIZE,
};
use crate::network::Network;
use crate::tcp::TcpSocket;

verus! {

/// The answers of a platform that is busy once and then reports `last`.
pub fn busy_then<T: Copy>(last: Result<T, ErrorCode>) -> (polls: Vec<Result<T, ErrorCode>>)
    ensures
        polls@ == seq![Err::<T, ErrorCode>(ErrorCode::WouldBlock), last],
{
    let mut polls: Vec<Result<T, ErrorCode>> = Vec::new();
    polls.push(Err(ErrorCode::WouldBlock));
    polls.push(last);
    polls
}

/// The configuration that the probes leave behind: they switch keep-alive off,
/// raise the hop limit to 255 and set both buffers to 16000. The backlog and
/// `ipv6_only` depend on the state that was probed.
pub open spec fn probed_options(ipv6_only: bool, listen_backlog_size: u64) -> SocketOptions {
    SocketOptions {
        ipv6_only,
        listen_backlog_size,
        keep_alive: false,
        unicast_hop_limit: 255,
        receive_buffer_size: 16000,
        send_buffer_size: 16000,
    }
}

/// Probes a socket that was created and nothing else. Every probe answers as
/// prescribed, and the socket is handed back as the probes left it: unbound
/// still, with `ipv6_only` switched on where the family has it.
pub fn test_tcp_unbound_state_invariants(family: IpAddressFamily) -> (probed: Option<TcpSocket>)
    ensures
        probed matches Some(sock) && sock@ == (SocketModel {
            family,
            state: SocketState::Unbound,
            options: probed_options(family == IpAddressFamily::Ipv6, 32),
        }),
{
    let any_address = IpSocketAddress::new(IpAddress::new_loopback(family), 0);
    let mut sock = TcpSocket::new(family).unwrap();
    let mut held = true;

    // Starting a bind or a connect is left out: it would leave the state.
    let r = sock.finish_bind(Ok(any_address));
    held = held && matches!(r, Err(ErrorCode::NotInProgress));
    let r = sock.finish_connect(Ok(()));
    held = held && matches!(r, Err(ErrorCode::NotInProgress));
    // Listening without an explicit bind is refused: nothing is bound implicitly.
    let r = sock.start_listen();
    held = held && matches!(r, Err(ErrorCode::InvalidState));
    let r = sock.finish_listen(Ok(()));
    held = held && matches!(r, Err(ErrorCode::NotInProgress));
    let r = sock.accept(Ok(any_address));
    held = held && matches!(r, Err(ErrorCode::InvalidState));
    let r = sock.shutdown(ShutdownType::Both);
    held = held && matches!(r, Err(ErrorCode::InvalidState));

    let r = sock.local_address();
    held = held && matches!(r, Err(ErrorCode::InvalidState));
    let r = sock.remote_address();
    held = held && matches!(r, Err(ErrorCode::InvalidState));
    held = held && sock.address_family() == family;

    if family == IpAddressFamily::Ipv6 {
        let r = sock.ipv6_only();
        held = held && matches!(r, Ok(_));
        // Switching dual-stack mode off works before anything is bound.
        let r = sock.set_ipv6_only(true);
        held = held && matches!(r, Ok(_));
    } else {
        let r = sock.ipv6_only();
        held = held && matches!(r, Err(ErrorCode::NotSupported));
        let r = sock.set_ipv6_only(true);
        held = held && matches!(r, Err(ErrorCode::NotSupported));
    }

    let r = sock.set_listen_backlog_size(32);
    held = held && matches!(r, Ok(_));
    let r = sock.keep_alive();
    held = held && matches!(r, Ok(_));
    let r = sock.set_keep_alive(false);
    held = held && matches!(r, Ok(_));
    let r = sock.unicast_hop_limit();
    held = held && matches!(r, Ok(_));
    let r = sock.set_unicast_hop_limit(255);
    held = held && matches!(r, Ok(_));
    let r = sock.receive_buffer_size();
    held = held && matches!(r, Ok(_));
    let r = sock.set_receive_buffer_size(16000);
    held = held && matches!(r, Ok(_));
    let r = sock.send_buffer_size();
    held = held && matches!(r, Ok(_));
    let r = sock.set_send_buffer_size(16000);
    held = held && matches!(r, Ok(_));
    if held {
        Some(sock)
    } else {
        None
    }
}

/// Probes a socket that was bound to the loopback address on any port, for
/// which the platform resolved `resolved`. Every probe answers as prescribed,
/// and the socket is handed back as the probes left it: bound to `resolved`.
pub fn test_tcp_bound_state_invariants(
    net: &Network,
    family: IpAddressFamily,
    resolved: IpSocketAddress,
) -> (probed: Option<TcpSocket>)
    ensures
        probed matches Some(sock) && sock@ == (SocketModel {
            family,
            state: SocketState::Bound { local: resolved },
            options: probed_options(false, 32),
        }),
{
    let bind_address = IpSocketAddress::new(IpAddress::new_loopback(family), 0);
    let mut sock = TcpSocket::new(family).unwrap();
    let mut held = true;
    let polls = busy_then(Ok(resolved));
    proof {
        first_settled_is_unique(polls@, 1);
    }
    let r = sock.blocking_bind(net, bind_address, &polls);
    held = held && matches!(r, Ok(_));

    let r = sock.start_bind(net, bind_address);
    held = held && matches!(r, Err(ErrorCode::InvalidState));
    let r = sock.finish_bind(Ok(bind_address));
    held = held && matches!(r, Err(ErrorCode::NotInProgress));
    // Starting a connect or a listen is left out: it would leave the state.
    let r = sock.finish_connect(Ok(()));
    held = held && matches!(r, Err(ErrorCode::NotInProgress));
    let r = sock.finish_listen(Ok(()));
    held = held && matches!(r, Err(ErrorCode::NotInProgress));
    let r = sock.accept(Ok(bind_address));
    held = held && matches!(r, Err(ErrorCode::InvalidState));
    let r = sock.shutdown(ShutdownType::Both);
    held = held && matches!(r, Err(ErrorCode::InvalidState));

    let r = sock.local_address();
    held = held && matches!(r, Ok(_));
    let r = sock.remote_address();
    held = held && matches!(r, Err(ErrorCode::InvalidState));
    held = held && sock.address_family() == family;

    if family == IpAddressFamily::Ipv6 {
        let r = sock.ipv6_only();
        held = held && matches!(r, Ok(_));
        let r = sock.set_ipv6_only(true);
        held = held && matches!(r, Err(ErrorCode::InvalidState));
    } else {
        let r = sock.ipv6_only();
        held = held && matches!(r, Err(ErrorCode::NotSupported));
        let r = sock.set_ipv6_only(true);
        held = held && matches!(r, Err(ErrorCode::NotSupported));
    }

    let r = sock.set_listen_backlog_size(32);
    held = held && matches!(r, Ok(_));
    let r = sock.keep_alive();
    held = held && matches!(r, Ok(_));
    let r = sock.set_keep_alive(false);
    held = held && matches!(r, Ok(_));
    let r = sock.unicast_hop_limit();
    held = held && matches!(r, Ok(_));
    let r = sock.set_unicast_hop_limit(255);
    held = held && matches!(r, Ok(_));
    let r = sock.receive_buffer_size();
    held = held && matches!(r, Ok(_));
    let r = sock.set_receive_buffer_size(16000);
    held = held && matches!(r, Ok(_));
    let r = sock.send_buffer_size();
    held = held && matches!(r, Ok(_));
    let r = sock.set_send_buffer_size(16000);
    held = held && matches!(r, Ok(_));
    if held {
        Some(sock)
    } else {
        None
    }
}

/// Probes a socket that was bound, as above, and then made to listen. Every
/// probe answers as prescribed, and the socket is handed back as the probes
/// left it: listening on `resolved`.
pub fn test_tcp_listening_state_invariants(
    net: &Network,
    family: IpAddressFamily,
    resolved: IpSocketAddress,
) -> (probed: Option<TcpSocket>)
    ensures
        probed matches Some(sock) && sock@ == (SocketModel {
            family,
            state: SocketState::Listening { local: resolved },
            options: probed_options(false, 32),
        }),
{
    let bind_address = IpSocketAddress::new(IpAddress::new_loopback(family), 0);
    let mut sock = TcpSocket::new(family).unwrap();
    let mut held = true;
    let bind_polls = busy_then(Ok(resolved));
    let listen_polls = busy_then(Ok(()));
    proof {
        first_settled_is_unique(bind_polls@, 1);
        first_settled_is_unique(listen_polls@, 1);
    }
    let r = sock.blocking_bind(net, bind_address, &bind_polls);
    held = held && matches!(r, Ok(_));
    let r = sock.blocking_listen(&listen_polls);
    held = held && matches!(r, Ok(_));

    let r = sock.start_bind(net, bind_address);
    held = held && matches!(r, Err(ErrorCode::InvalidState));
    let r = sock.finish_bind(Ok(bind_address));
    held = held && matches!(r, Err(ErrorCode::NotInProgress));
    // The address to connect to does not matter here.
    let r = sock.start_connect(net, bind_address);
    held = held && matches!(r, Err(ErrorCode::InvalidState));
    let r = sock.finish_connect(Ok(()));
    held = held && matches!(r, Err(ErrorCode::NotInProgress));
    let r = sock.start_listen();
    held = held && matches!(r, Err(ErrorCode::InvalidState));
    let r = sock.finish_listen(Ok(()));
    held = held && matches!(r, Err(ErrorCode::NotInProgress));
    // Accepting is left out: it is what a listening socket is for.
    let r = sock.shutdown(ShutdownType::Both);
    held = held && matches!(r, Err(ErrorCode::InvalidState));

    let r = sock.local_address();
    held = held && matches!(r, Ok(_));
    let r = sock.remote_address();
    held = held && matches!(r, Err(ErrorCode::InvalidState));
    held = held && sock.address_family() == family;

    if family == IpAddressFamily::Ipv6 {
        let r = sock.ipv6_only();
        held = held && matches!(r, Ok(_));
        let r = sock.set_ipv6_only(true);
        held = held && matches!(r, Err(ErrorCode::InvalidState));
    } else {
        let r = sock.ipv6_only();
        held = held && matches!(r, Err(ErrorCode::NotSupported));
        let r = sock.set_ipv6_only(true);
        held = held && matches!(r, Err(ErrorCode::NotSupported));
    }

    // A socket may refuse to change the backlog while it listens.
    let r = sock.set_listen_backlog_size(32);
    held = held && matches!(r, Ok(_) | Err(ErrorCode::NotSupported));
    let r = sock.keep_alive();
    held = held && matches!(r, Ok(_));
    let r = sock.set_keep_alive(false);
    held = held && matches!(r, Ok(_));
    let r = sock.unicast_hop_limit();
    held = held && matches!(r, Ok(_));
    let r = sock.set_unicast_hop_limit(255);
    held = held && matches!(r, Ok(_));
    let r = sock.receive_buffer_size();
    held = held && matches!(r, Ok(_));
    let r = sock.set_receive_buffer_size(16000);
    held = held && matches!(r, Ok(_));
    let r = sock.send_buffer_size();
    held = held && matches!(r, Ok(_));
    let r = sock.set_send_buffer_size(16000);
    held = held && matches!(r, Ok(_));
    if held {
        Some(sock)
    } else {
        None
    }
}

/// Probes a socket that was bound and then connected to a listener. The
/// platform resolved `listener_resolved` for the listener's binding and
/// `resolved` for the socket's own. Every probe answers as prescribed, and
/// the socket is handed back as the probes left it: connected from `resolved`
/// to `listener_resolved`, with both halves open.
pub fn test_tcp_connected_state_invariants(
    net: &Network,
    family: IpAddressFamily,
    listener_resolved: IpSocketAddress,
    resolved: IpSocketAddress,
) -> (probed: Option<TcpSocket>)
    ensures
        probed matches Some(sock) && sock@ == (SocketModel {
            family,
            state: SocketState::Connected {
                    local: resolved,
                    remote: listener_resolved,
                    receive_shut: false,
                    send_shut: false,
                },
            options: probed_options(false, DEFAULT_LISTEN_BACKLOG_SIZE),
        }),
{
    let bind_address = IpSocketAddress::new(IpAddress::new_loopback(family), 0);
    let mut held = true;
    let listener_polls = busy_then(Ok(listener_resolved));
    let bind_polls = busy_then(Ok(resolved));
    let unit_polls = busy_then(Ok(()));
    proof {
        first_settled_is_unique(listener_polls@, 1);
        first_settled_is_unique(bind_polls@, 1);
        first_settled_is_unique(unit_polls@, 1);
    }
    let mut sock_listener = TcpSocket::new(family).unwrap();
    let r = sock_listener.blocking_bind(net, bind_address, &listener_polls);
    held = held && matches!(r, Ok(_));
    let r = sock_listener.blocking_listen(&unit_polls);
    held = held && matches!(r, Ok(_));
    let addr_listener = sock_listener.local_address().unwrap();
    let mut sock = TcpSocket::new(family).unwrap();
    let r = sock.blocking_bind(net, bind_address, &bind_polls);
    held = held && matches!(r, Ok(_));
    let r = sock.blocking_connect(net, addr_listener, &unit_polls);
    held = held && matches!(r, Ok(_));

    let r = sock.start_bind(net, bind_address);
    held = held && matches!(r, Err(ErrorCode::InvalidState));
    let r = sock.finish_bind(Ok(bind_address));
    held = held && matches!(r, Err(ErrorCode::NotInProgress));
    let r = sock.start_connect(net, addr_listener);
    held = held && matches!(r, Err(ErrorCode::InvalidState));
    let r = sock.finish_connect(Ok(()));
    held = held && matches!(r, Err(ErrorCode::NotInProgress));
    let r = sock.start_listen();
    held = held && matches!(r, Err(ErrorCode::InvalidState));
    let r = sock.finish_listen(Ok(()));
    held = held && matches!(r, Err(ErrorCode::NotInProgress));
    let r = sock.accept(Ok(bind_address));
    held = held && matches!(r, Err(ErrorCode::InvalidState));
    // Shutting down is left out: it is what a connected socket allows.

    let r = sock.local_address();
    held = held && matches!(r, Ok(_));
    let r = sock.remote_address();
    held = held && matches!(r, Ok(_));
    held = held && sock.address_family() == family;

    if family == IpAddressFamily::Ipv6 {
        let r = sock.ipv6_only();
        held = held && matches!(r, Ok(_));
        let r = sock.set_ipv6_only(true);
        held = held && matches!(r, Err(ErrorCode::InvalidState));
    } else {
        let r = sock.ipv6_only();
        held = held && matches!(r, Err(ErrorCode::NotSupported));
        let r = sock.set_ipv6_only(true);
        held = held && matches!(r, Err(ErrorCode::NotSupported));
    }

    let r = sock.keep_alive();
    held = held && matches!(r, Ok(_));
    let r = sock.set_keep_alive(false);
    held = held && matches!(r, Ok(_));
    let r = sock.unicast_hop_limit();
    held = held && matches!(r, Ok(_));
    let r = sock.set_unicast_hop_limit(255);
    held = held && matches!(r, Ok(_));
    let r = sock.receive_buffer_size();
    held = held && matches!(r, Ok(_));
    let r = sock.set_receive_buffer_size(16000);
    held = held && matches!(r, Ok(_));
    let r = sock.send_buffer_size();
    held = held && matches!(r, Ok(_));
    let r = sock.set_send_buffer_size(16000);
    held = held && matches!(r, Ok(_));
    if held {
        Some(sock)
    } else {
        None
    }
}

} // verus!
