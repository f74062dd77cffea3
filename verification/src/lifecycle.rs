//! What holds of every socket: which operations are legal where, what the
//! addresses are in each state, and how a pending operation ends.

use vstd::prelude::*;
use crate::address::{IpAddressFamily, IpSocketAddress};
use crate::error::ErrorCode;
use crate::model::{settled, PendingOperation, ShutdownType, SocketModel, SocketState};

verus! {

/// The settled states are the four in which nothing is pending.
pub open spec fn is_settled_state(state: SocketState) -> bool {
    state is Unbound || state is Bound || state is Listening || state is Connected
}

/// The remote address is present exactly when connected, the local address
/// exactly when bound, listening or connected, and an operation is pending
/// exactly in the in-progress states.
pub proof fn addresses_follow_the_state(state: SocketState)
    ensures
        state.remote() is Some <==> state is Connected,
        state.local() is Some <==> (state is Bound || state is Listening || state is Connected),
        state.pending() is Some <==> !is_settled_state(state),
        state.pending() == Some(PendingOperation::Bind) <==> state is BindInProgress,
        state.pending() == Some(PendingOperation::Connect) <==> state is ConnectInProgress,
        state.pending() == Some(PendingOperation::Listen) <==> state is ListenInProgress,
{
}

/// In each settled state, of either family, every operation answers as the
/// table of the lifecycle says: a start succeeds in the one state that
/// permits it and is `InvalidState` elsewhere; a finish is `NotInProgress`;
/// `accept` works only while listening, `shutdown` only while connected; the
/// local address is known from bound on, the remote address only while
/// connected. An operation that is refused leaves the socket as it was.
pub proof fn settled_states_answer_by_the_table(
    s: SocketModel,
    address: IpSocketAddress,
    resolved: Result<IpSocketAddress, ErrorCode>,
    done: Result<(), ErrorCode>,
    peer: IpSocketAddress,
    how: ShutdownType,
)
    requires
        is_settled_state(s.state),
    ensures
        s.state is Unbound ==> s.start_bind_reply() is Ok && s.after_start_bind(address).state
            == (SocketState::BindInProgress { requested: address }),
        !(s.state is Unbound) ==> s.start_bind_reply() == Err::<(), ErrorCode>(ErrorCode::InvalidState)
            && s.after_start_bind(address) == s,
        s.state is Bound ==> s.start_connect_reply() is Ok && s.after_start_connect(address).state
            == (SocketState::ConnectInProgress { local: s.state->Bound_local, remote: address }),
        !(s.state is Bound) ==> s.start_connect_reply() == Err::<(), ErrorCode>(ErrorCode::InvalidState)
            && s.after_start_connect(address) == s,
        s.state is Bound ==> s.start_listen_reply() is Ok && s.after_start_listen().state
            == (SocketState::ListenInProgress { local: s.state->Bound_local }),
        !(s.state is Bound) ==> s.start_listen_reply() == Err::<(), ErrorCode>(ErrorCode::InvalidState)
            && s.after_start_listen() == s,
        s.finish_bind_reply(resolved) == Err::<(), ErrorCode>(ErrorCode::NotInProgress),
        s.finish_connect_reply(done) == Err::<(), ErrorCode>(ErrorCode::NotInProgress),
        s.finish_listen_reply(done) == Err::<(), ErrorCode>(ErrorCode::NotInProgress),
        s.after_finish_bind(resolved) == s,
        s.after_finish_connect(done) == s,
        s.after_finish_listen(done) == s,
        s.state is Listening ==> s.accept_reply(Ok(peer)) is Ok,
        !(s.state is Listening) ==> s.accept_reply(Ok(peer)) == Err::<SocketModel, ErrorCode>(
            ErrorCode::InvalidState,
        ),
        s.state is Connected ==> s.shutdown_reply() is Ok,
        !(s.state is Connected) ==> s.shutdown_reply() == Err::<(), ErrorCode>(ErrorCode::InvalidState)
            && s.after_shutdown(how) == s,
        s.state is Unbound ==> s.local_address_reply() == Err::<IpSocketAddress, ErrorCode>(
            ErrorCode::InvalidState,
        ),
        !(s.state is Unbound) ==> s.local_address_reply() is Ok,
        s.state is Connected ==> s.remote_address_reply() is Ok,
        !(s.state is Connected) ==> s.remote_address_reply() == Err::<IpSocketAddress, ErrorCode>(
            ErrorCode::InvalidState,
        ),
{
}

/// A socket has one slot for a pending operation. While it is taken no other
/// operation can be started, nothing can be accepted or shut down, and no
/// address is given out.
pub proof fn one_operation_at_a_time(s: SocketModel, address: IpSocketAddress, peer: IpSocketAddress)
    requires
        s.state.pending() is Some,
    ensures
        s.start_bind_reply() == Err::<(), ErrorCode>(ErrorCode::InvalidState),
        s.start_connect_reply() == Err::<(), ErrorCode>(ErrorCode::InvalidState),
        s.start_listen_reply() == Err::<(), ErrorCode>(ErrorCode::InvalidState),
        s.after_start_bind(address) == s,
        s.after_start_connect(address) == s,
        s.after_start_listen() == s,
        s.accept_reply(Ok(peer)) == Err::<SocketModel, ErrorCode>(ErrorCode::InvalidState),
        s.shutdown_reply() == Err::<(), ErrorCode>(ErrorCode::InvalidState),
        s.local_address_reply() == Err::<IpSocketAddress, ErrorCode>(ErrorCode::InvalidState),
        s.remote_address_reply() == Err::<IpSocketAddress, ErrorCode>(ErrorCode::InvalidState),
{
}

/// A finish whose operation is not the pending one answers `NotInProgress`,
/// in every state and whatever the platform reported, and changes nothing.
pub proof fn finish_needs_its_start(
    s: SocketModel,
    resolved: Result<IpSocketAddress, ErrorCode>,
    done: Result<(), ErrorCode>,
)
    ensures
        s.state.pending() != Some(PendingOperation::Bind) ==> s.finish_bind_reply(resolved) == Err::<
            (),
            ErrorCode,
        >(ErrorCode::NotInProgress) && s.after_finish_bind(resolved) == s,
        s.state.pending() != Some(PendingOperation::Connect) ==> s.finish_connect_reply(done) == Err::<
            (),
            ErrorCode,
        >(ErrorCode::NotInProgress) && s.after_finish_connect(done) == s,
        s.state.pending() != Some(PendingOperation::Listen) ==> s.finish_listen_reply(done) == Err::<
            (),
            ErrorCode,
        >(ErrorCode::NotInProgress) && s.after_finish_listen(done) == s,
{
}

/// A finish answers `WouldBlock` exactly when the socket stays in progress:
/// a pending operation stays pending while the platform says `WouldBlock`,
/// and ends with any other answer.
pub proof fn pending_until_settled(
    s: SocketModel,
    resolved: Result<IpSocketAddress, ErrorCode>,
    done: Result<(), ErrorCode>,
)
    ensures
        s.state is BindInProgress ==> (s.after_finish_bind(resolved).state.pending() is Some <==> !settled(
            resolved,
        )),
        s.state is ConnectInProgress ==> (s.after_finish_connect(done).state.pending() is Some
            <==> !settled(done)),
        s.state is ListenInProgress ==> (s.after_finish_listen(done).state.pending() is Some <==> !settled(
            done,
        )),
        !settled(resolved) ==> s.after_finish_bind(resolved) == s,
        !settled(done) ==> s.after_finish_connect(done) == s && s.after_finish_listen(done) == s,
{
}

/// A started operation that the platform definitively refuses leaves the
/// socket exactly as it was before the start, and the refusal is passed on.
pub proof fn refusal_undoes_the_start(s: SocketModel, address: IpSocketAddress, refusal: ErrorCode)
    requires
        refusal != ErrorCode::WouldBlock,
    ensures
        s.start_bind_reply() is Ok ==> s.after_start_bind(address).after_finish_bind(Err(refusal)) == s
            && s.after_start_bind(address).finish_bind_reply(Err(refusal)) == Err::<(), ErrorCode>(
            refusal,
        ),
        s.start_connect_reply() is Ok ==> s.after_start_connect(address).after_finish_connect(
            Err(refusal),
        ) == s && s.after_start_connect(address).finish_connect_reply(Err(refusal)) == Err::<
            (),
            ErrorCode,
        >(refusal),
        s.start_listen_reply() is Ok ==> s.after_start_listen().after_finish_listen(Err(refusal)) == s
            && s.after_start_listen().finish_listen_reply(Err(refusal)) == Err::<(), ErrorCode>(refusal),
{
}

/// An operation that answers with success never takes the socket back: its
/// rank does not fall, and it is never unbound again.
pub proof fn success_never_goes_back(
    s: SocketModel,
    address: IpSocketAddress,
    resolved: Result<IpSocketAddress, ErrorCode>,
    done: Result<(), ErrorCode>,
    how: ShutdownType,
)
    ensures
        s.start_bind_reply() is Ok ==> s.after_start_bind(address).state.rank() > s.state.rank(),
        s.start_connect_reply() is Ok ==> s.after_start_connect(address).state.rank() > s.state.rank(),
        s.start_listen_reply() is Ok ==> s.after_start_listen().state.rank() > s.state.rank(),
        s.finish_bind_reply(resolved) is Ok ==> s.after_finish_bind(resolved).state.rank()
            > s.state.rank(),
        s.finish_connect_reply(done) is Ok ==> s.after_finish_connect(done).state.rank()
            > s.state.rank(),
        s.finish_listen_reply(done) is Ok ==> s.after_finish_listen(done).state.rank() > s.state.rank(),
        s.shutdown_reply() is Ok ==> s.after_shutdown(how).state.rank() == s.state.rank(),
{
}

/// No operation changes the family, and only the setters change the
/// configuration.
pub proof fn family_is_fixed(
    s: SocketModel,
    address: IpSocketAddress,
    resolved: Result<IpSocketAddress, ErrorCode>,
    done: Result<(), ErrorCode>,
    how: ShutdownType,
    flag: bool,
    size: u64,
    hops: u8,
)
    ensures
        s.after_start_bind(address) == s.in_state(s.after_start_bind(address).state),
        s.after_finish_bind(resolved) == s.in_state(s.after_finish_bind(resolved).state),
        s.after_start_connect(address) == s.in_state(s.after_start_connect(address).state),
        s.after_finish_connect(done) == s.in_state(s.after_finish_connect(done).state),
        s.after_start_listen() == s.in_state(s.after_start_listen().state),
        s.after_finish_listen(done) == s.in_state(s.after_finish_listen(done).state),
        s.after_shutdown(how) == s.in_state(s.after_shutdown(how).state),
        s.accept_reply(resolved) matches Ok(accepted) ==> accepted == s.in_state(accepted.state),
        s.after_set_ipv6_only(flag) == s.configured(s.after_set_ipv6_only(flag).options),
        s.after_set_keep_alive(flag) == s.configured(s.after_set_keep_alive(flag).options),
        s.after_set_listen_backlog_size(size) == s.configured(
            s.after_set_listen_backlog_size(size).options,
        ),
        s.after_set_receive_buffer_size(size) == s.configured(
            s.after_set_receive_buffer_size(size).options,
        ),
        s.after_set_send_buffer_size(size) == s.configured(s.after_set_send_buffer_size(size).options),
        s.after_set_unicast_hop_limit(hops) == s.configured(s.after_set_unicast_hop_limit(hops).options),
{
}

/// A connection that arrives at a listener becomes a connected socket of the
/// listener's family, whose local address is the listener's and whose remote
/// address is the peer's. What the platform reports instead of a connection
/// is passed on.
pub proof fn accept_hands_out_a_connected_socket(
    listener: SocketModel,
    incoming: Result<IpSocketAddress, ErrorCode>,
)
    requires
        listener.state is Listening,
    ensures
        incoming matches Ok(peer) ==> listener.accept_reply(incoming) is Ok && ({
            let accepted = listener.accept_reply(incoming)->Ok_0;
            &&& accepted.state is Connected
            &&& accepted.family == listener.family
            &&& accepted.remote_address_reply() == Ok::<IpSocketAddress, ErrorCode>(peer)
            &&& accepted.local_address_reply() == listener.local_address_reply()
        }),
        incoming matches Err(e) ==> listener.accept_reply(incoming) == Err::<SocketModel, ErrorCode>(e),
{
}

/// `ipv6_only` does not exist on an IPv4 socket: reading and setting it are
/// `NotSupported` in every state. On an IPv6 socket it can always be read; it
/// can be set while unbound, and setting it later is `InvalidState`.
pub proof fn ipv6_only_is_for_ipv6(s: SocketModel, value: bool)
    ensures
        s.family == IpAddressFamily::Ipv4 ==> s.ipv6_only_reply() == Err::<bool, ErrorCode>(
            ErrorCode::NotSupported,
        ) && s.set_ipv6_only_reply() == Err::<(), ErrorCode>(ErrorCode::NotSupported)
            && s.after_set_ipv6_only(value) == s,
        s.family == IpAddressFamily::Ipv6 ==> s.ipv6_only_reply() is Ok,
        s.family == IpAddressFamily::Ipv6 && s.state is Unbound ==> s.set_ipv6_only_reply() is Ok
            && s.after_set_ipv6_only(value).ipv6_only_reply() == Ok::<bool, ErrorCode>(value),
        s.family == IpAddressFamily::Ipv6 && !(s.state is Unbound) ==> s.set_ipv6_only_reply() == Err::<
            (),
            ErrorCode,
        >(ErrorCode::InvalidState) && s.after_set_ipv6_only(value) == s,
{
}

/// Shutting down keeps the connection and its addresses: the socket stays
/// connected, with the halves shut that were shut before or are named now.
pub proof fn shutdown_keeps_the_connection(s: SocketModel, how: ShutdownType)
    requires
        s.state is Connected,
    ensures
        s.after_shutdown(how).state is Connected,
        s.after_shutdown(how).local_address_reply() == s.local_address_reply(),
        s.after_shutdown(how).remote_address_reply() == s.remote_address_reply(),
        s.after_shutdown(how).state->receive_shut == (s.state->receive_shut || how
            != ShutdownType::Send),
        s.after_shutdown(how).state->send_shut == (s.state->send_shut || how != ShutdownType::Receive),
        s.after_shutdown(ShutdownType::Both).after_shutdown(how) == s.after_shutdown(ShutdownType::Both),
{
}

} // verus!
