//! The executable socket.
//!
//! Every operation looks at the state first, answers as the model says, and
//! moves the socket as the model says. Operations that reach the network take
//! the platform's answer as an argument, so that nothing here waits.

use vstd::prelude::*;
use crate::address::{IpAddressFamily, IpSocketAddress};
use crate::error::ErrorCode;
use crate::model::{
    PendingOperation, ShutdownType, SocketModel, SocketOptions, SocketState, DEFAULT_BUFFER_SIZE,
    DEFAULT_LISTEN_BACKLOG_SIZE, DEFAULT_UNICAST_HOP_LIMIT,
};
use crate::network::Network;

verus! {

/// A TCP socket of one address family.
///
/// Its value can only be changed through the operations below, so it is always
/// in a state that the lifecycle can reach. It is owned by one caller at a
/// time; dropping it closes it.
#[derive(Debug)]
pub struct TcpSocket {
    family: IpAddressFamily,
    state: SocketState,
    options: SocketOptions,
}

impl View for TcpSocket {
    type V = SocketModel;

    closed spec fn view(&self) -> SocketModel {
        SocketModel { family: self.family, state: self.state, options: self.options }
    }
}

impl TcpSocket {
    /// Creates an unbound socket. Only the family is fixed, for good.
    pub fn new(family: IpAddressFamily) -> (r: Result<TcpSocket, ErrorCode>)
        ensures
            r is Ok,
            r->Ok_0@ == SocketModel::created(family),
    {
        Ok(
            TcpSocket {
                family,
                state: SocketState::Unbound,
                options: SocketOptions {
                    ipv6_only: false,
                    listen_backlog_size: DEFAULT_LISTEN_BACKLOG_SIZE,
                    keep_alive: false,
                    unicast_hop_limit: DEFAULT_UNICAST_HOP_LIMIT,
                    receive_buffer_size: DEFAULT_BUFFER_SIZE,
                    send_buffer_size: DEFAULT_BUFFER_SIZE,
                },
            },
        )
    }

    /// The family that the socket was created for.
    pub fn address_family(&self) -> (family: IpAddressFamily)
        ensures
            family == self@.family,
    {
        self.family
    }

    /// The state that the socket is in.
    pub fn state(&self) -> (state: SocketState)
        ensures
            state == self@.state,
    {
        self.state
    }

    /// The two-phase operation that was started and has not settled, if any.
    pub fn pending_operation(&self) -> (pending: Option<PendingOperation>)
        ensures
            pending == self@.state.pending(),
    {
        match self.state {
            SocketState::BindInProgress { .. } => Some(PendingOperation::Bind),
            SocketState::ConnectInProgress { .. } => Some(PendingOperation::Connect),
            SocketState::ListenInProgress { .. } => Some(PendingOperation::Listen),
            _ => None,
        }
    }

    // ----- the two-phase operations -----

    /// Begins binding to `local_address`. Legal only on an unbound socket;
    /// anywhere else the answer is `InvalidState` and nothing changes.
    pub fn start_bind(&mut self, network: &Network, local_address: IpSocketAddress) -> (r: Result<
        (),
        ErrorCode,
    >)
        ensures
            r == old(self)@.start_bind_reply(),
            final(self)@ == old(self)@.after_start_bind(local_address),
    {
        match self.state {
            SocketState::Unbound => {
                self.state = SocketState::BindInProgress { requested: local_address };
                Ok(())
            },
            _ => Err(ErrorCode::InvalidState),
        }
    }

    /// Takes the platform's answer to a pending bind: the address that the
    /// socket was bound to, `WouldBlock` while it is not known yet, or the
    /// reason for the refusal, after which the socket is unbound again.
    /// Without a pending bind the answer is `NotInProgress`.
    pub fn finish_bind(&mut self, outcome: Result<IpSocketAddress, ErrorCode>) -> (r: Result<(), ErrorCode>)
        ensures
            r == old(self)@.finish_bind_reply(outcome),
            final(self)@ == old(self)@.after_finish_bind(outcome),
    {
        match self.state {
            SocketState::BindInProgress { .. } => match outcome {
                Ok(local) => {
                    self.state = SocketState::Bound { local };
                    Ok(())
                },
                Err(ErrorCode::WouldBlock) => Err(ErrorCode::WouldBlock),
                Err(e) => {
                    self.state = SocketState::Unbound;
                    Err(e)
                },
            },
            _ => Err(ErrorCode::NotInProgress),
        }
    }

    /// Begins connecting to `remote_address`. Legal only on a bound socket.
    pub fn start_connect(&mut self, network: &Network, remote_address: IpSocketAddress) -> (r: Result<
        (),
        ErrorCode,
    >)
        ensures
            r == old(self)@.start_connect_reply(),
            final(self)@ == old(self)@.after_start_connect(remote_address),
    {
        match self.state {
            SocketState::Bound { local } => {
                self.state = SocketState::ConnectInProgress { local, remote: remote_address };
                Ok(())
            },
            _ => Err(ErrorCode::InvalidState),
        }
    }

    /// Takes the platform's answer to a pending connect. A definitive failure
    /// returns the socket to its binding, from which the caller may try again.
    pub fn finish_connect(&mut self, outcome: Result<(), ErrorCode>) -> (r: Result<(), ErrorCode>)
        ensures
            r == old(self)@.finish_connect_reply(outcome),
            final(self)@ == old(self)@.after_finish_connect(outcome),
    {
        match self.state {
            SocketState::ConnectInProgress { local, remote } => match outcome {
                Ok(_) => {
                    self.state =
                    SocketState::Connected { local, remote, receive_shut: false, send_shut: false };
                    Ok(())
                },
                Err(ErrorCode::WouldBlock) => Err(ErrorCode::WouldBlock),
                Err(e) => {
                    self.state = SocketState::Bound { local };
                    Err(e)
                },
            },
            _ => Err(ErrorCode::NotInProgress),
        }
    }

    /// Begins listening. Legal only on a bound socket: an unbound socket is
    /// never bound implicitly.
    pub fn start_listen(&mut self) -> (r: Result<(), ErrorCode>)
        ensures
            r == old(self)@.start_listen_reply(),
            final(self)@ == old(self)@.after_start_listen(),
    {
        match self.state {
            SocketState::Bound { local } => {
                self.state = SocketState::ListenInProgress { local };
                Ok(())
            },
            _ => Err(ErrorCode::InvalidState),
        }
    }

    /// Takes the platform's answer to a pending listen. A definitive failure
    /// returns the socket to its binding.
    pub fn finish_listen(&mut self, outcome: Result<(), ErrorCode>) -> (r: Result<(), ErrorCode>)
        ensures
            r == old(self)@.finish_listen_reply(outcome),
            final(self)@ == old(self)@.after_finish_listen(outcome),
    {
        match self.state {
            SocketState::ListenInProgress { local } => match outcome {
                Ok(_) => {
                    self.state = SocketState::Listening { local };
                    Ok(())
                },
                Err(ErrorCode::WouldBlock) => Err(ErrorCode::WouldBlock),
                Err(e) => {
                    self.state = SocketState::Bound { local };
                    Err(e)
                },
            },
            _ => Err(ErrorCode::NotInProgress),
        }
    }

    // ----- accept, shutdown, addresses -----

    /// Hands out the connection that the platform reported on a listening
    /// socket, as a new socket of its own. The listener is not changed.
    pub fn accept(&self, incoming: Result<IpSocketAddress, ErrorCode>) -> (r: Result<TcpSocket, ErrorCode>)
        ensures
            match r {
                Ok(socket) => self@.accept_reply(incoming) == Ok::<SocketModel, ErrorCode>(socket@),
                Err(e) => self@.accept_reply(incoming) == Err::<SocketModel, ErrorCode>(e),
            },
    {
        match self.state {
            SocketState::Listening { local } => match incoming {
                Ok(remote) => Ok(
                    TcpSocket {
                        family: self.family,
                        state: SocketState::Connected {
                            local,
                            remote,
                            receive_shut: false,
                            send_shut: false,
                        },
                        options: self.options,
                    },
                ),
                Err(e) => Err(e),
            },
            _ => Err(ErrorCode::InvalidState),
        }
    }

    /// Closes one half or both halves of a connected socket.
    pub fn shutdown(&mut self, shutdown_type: ShutdownType) -> (r: Result<(), ErrorCode>)
        ensures
            r == old(self)@.shutdown_reply(),
            final(self)@ == old(self)@.after_shutdown(shutdown_type),
    {
        match self.state {
            SocketState::Connected { local, remote, receive_shut, send_shut } => {
                let shuts_receive = !matches!(shutdown_type, ShutdownType::Send);
                let shuts_send = !matches!(shutdown_type, ShutdownType::Receive);
                self.state =
                SocketState::Connected {
                    local,
                    remote,
                    receive_shut: receive_shut || shuts_receive,
                    send_shut: send_shut || shuts_send,
                };
                Ok(())
            },
            _ => Err(ErrorCode::InvalidState),
        }
    }

    /// The address that the socket is bound to.
    pub fn local_address(&self) -> (r: Result<IpSocketAddress, ErrorCode>)
        ensures
            r == self@.local_address_reply(),
    {
        match self.state {
            SocketState::Bound { local } => Ok(local),
            SocketState::Listening { local } => Ok(local),
            SocketState::Connected { local, .. } => Ok(local),
            _ => Err(ErrorCode::InvalidState),
        }
    }

    /// The address of the peer that the socket is connected to.
    pub fn remote_address(&self) -> (r: Result<IpSocketAddress, ErrorCode>)
        ensures
            r == self@.remote_address_reply(),
    {
        match self.state {
            SocketState::Connected { remote, .. } => Ok(remote),
            _ => Err(ErrorCode::InvalidState),
        }
    }

    // ----- options -----

    /// Whether an IPv6 socket is restricted to IPv6. An IPv4 socket has no
    /// such option: `NotSupported`.
    pub fn ipv6_only(&self) -> (r: Result<bool, ErrorCode>)
        ensures
            r == self@.ipv6_only_reply(),
    {
        match self.family {
            IpAddressFamily::Ipv6 => Ok(self.options.ipv6_only),
            IpAddressFamily::Ipv4 => Err(ErrorCode::NotSupported),
        }
    }

    /// Fixes whether an IPv6 socket is restricted to IPv6. This must be
    /// settled before anything is bound: later it is `InvalidState`. On an
    /// IPv4 socket it is `NotSupported` in every state.
    pub fn set_ipv6_only(&mut self, value: bool) -> (r: Result<(), ErrorCode>)
        ensures
            r == old(self)@.set_ipv6_only_reply(),
            final(self)@ == old(self)@.after_set_ipv6_only(value),
    {
        match self.family {
            IpAddressFamily::Ipv4 => Err(ErrorCode::NotSupported),
            IpAddressFamily::Ipv6 => match self.state {
                SocketState::Unbound => {
                    self.options.ipv6_only = value;
                    Ok(())
                },
                _ => Err(ErrorCode::InvalidState),
            },
        }
    }

    /// The backlog that was recorded.
    pub fn listen_backlog_size(&self) -> (r: Result<u64, ErrorCode>)
        ensures
            r == Ok::<u64, ErrorCode>(self@.options.listen_backlog_size),
    {
        Ok(self.options.listen_backlog_size)
    }

    /// Records the backlog. This socket accepts the setting in every state,
    /// a listening one included.
    pub fn set_listen_backlog_size(&mut self, value: u64) -> (r: Result<(), ErrorCode>)
        ensures
            r is Ok,
            final(self)@ == old(self)@.after_set_listen_backlog_size(value),
    {
        self.options.listen_backlog_size = value;
        Ok(())
    }

    /// Whether keep-alive is on. Known in every state.
    pub fn keep_alive(&self) -> (r: Result<bool, ErrorCode>)
        ensures
            r == Ok::<bool, ErrorCode>(self@.options.keep_alive),
    {
        Ok(self.options.keep_alive)
    }

    /// Switches keep-alive. Accepted in every state.
    pub fn set_keep_alive(&mut self, value: bool) -> (r: Result<(), ErrorCode>)
        ensures
            r is Ok,
            final(self)@ == old(self)@.after_set_keep_alive(value),
    {
        self.options.keep_alive = value;
        Ok(())
    }

    /// The hop limit. Known in every state.
    pub fn unicast_hop_limit(&self) -> (r: Result<u8, ErrorCode>)
        ensures
            r == Ok::<u8, ErrorCode>(self@.options.unicast_hop_limit),
    {
        Ok(self.options.unicast_hop_limit)
    }

    /// Records the hop limit. Accepted in every state, for every value.
    pub fn set_unicast_hop_limit(&mut self, value: u8) -> (r: Result<(), ErrorCode>)
        ensures
            r is Ok,
            final(self)@ == old(self)@.after_set_unicast_hop_limit(value),
    {
        self.options.unicast_hop_limit = value;
        Ok(())
    }

    /// The size of the receive buffer. Known in every state.
    pub fn receive_buffer_size(&self) -> (r: Result<u64, ErrorCode>)
        ensures
            r == Ok::<u64, ErrorCode>(self@.options.receive_buffer_size),
    {
        Ok(self.options.receive_buffer_size)
    }

    /// Records the size of the receive buffer. Accepted in every state, for
    /// every value.
    pub fn set_receive_buffer_size(&mut self, value: u64) -> (r: Result<(), ErrorCode>)
        ensures
            r is Ok,
            final(self)@ == old(self)@.after_set_receive_buffer_size(value),
    {
        self.options.receive_buffer_size = value;
        Ok(())
    }

    /// The size of the send buffer. Known in every state.
    pub fn send_buffer_size(&self) -> (r: Result<u64, ErrorCode>)
        ensures
            r == Ok::<u64, ErrorCode>(self@.options.send_buffer_size),
    {
        Ok(self.options.send_buffer_size)
    }

    /// Records the size of the send buffer. Accepted in every state, for every
    /// value.
    pub fn set_send_buffer_size(&mut self, value: u64) -> (r: Result<(), ErrorCode>)
        ensures
            r is Ok,
            final(self)@ == old(self)@.after_set_send_buffer_size(value),
    {
        self.options.send_buffer_size = value;
        Ok(())
    }
}

} // verus!
