//! The lifecycle of a socket as a mathematical state machine.
//!
//! A `SocketModel` is the whole observable value of a socket. For every
//! operation two functions say what the operation answers in a given state and
//! what the socket is afterwards. The executable socket is specified by them.

use vstd::prelude::*;
use crate::address::{IpAddressFamily, IpSocketAddress};
use crate::error::ErrorCode;

verus! {

/// Which half of a connection to close.
#[derive(Clone, Copy, Debug, PartialEq, Eq, Hash, Structural)]
pub enum ShutdownType {
    Receive,
    Send,
    Both,
}

/// The two-phase operation that has been started and has not settled yet.
#[derive(Clone, Copy, Debug, PartialEq, Eq, Hash, Structural)]
pub enum PendingOperation {
    Bind,
    Connect,
    Listen,
}

/// Where a socket stands in its lifecycle, with the addresses that belong to
/// that stage.
///
/// An in-progress state keeps what is needed to go forward or back: the
/// address asked for, or the binding to return to when the platform refuses.
#[derive(Clone, Copy, Debug, PartialEq, Eq)]
pub enum SocketState {
    Unbound,
    BindInProgress { requested: IpSocketAddress },
    Bound { local: IpSocketAddress },
    ConnectInProgress { local: IpSocketAddress, remote: IpSocketAddress },
    Connected { local: IpSocketAddress, remote: IpSocketAddress, receive_shut: bool, send_shut: bool },
    ListenInProgress { local: IpSocketAddress },
    Listening { local: IpSocketAddress },
}

/// The socket-level configuration.
#[derive(Clone, Copy, Debug, PartialEq, Eq)]
pub struct SocketOptions {
    pub ipv6_only: bool,
    pub listen_backlog_size: u64,
    pub keep_alive: bool,
    pub unicast_hop_limit: u8,
    pub receive_buffer_size: u64,
    pub send_buffer_size: u64,
}

/// The backlog of a socket whose backlog was never set.
pub const DEFAULT_LISTEN_BACKLOG_SIZE: u64 = 128;

/// The hop limit of a socket whose hop limit was never set.
pub const DEFAULT_UNICAST_HOP_LIMIT: u8 = 64;

/// The size of either buffer of a socket whose buffer sizes were never set.
pub const DEFAULT_BUFFER_SIZE: u64 = 65536;

/// Everything that can be observed of a socket.
pub struct SocketModel {
    pub family: IpAddressFamily,
    pub state: SocketState,
    pub options: SocketOptions,
}

/// Whether the platform's answer ends the waiting: anything but `WouldBlock`.
pub open spec fn settled<T>(outcome: Result<T, ErrorCode>) -> bool {
    outcome != Err::<T, ErrorCode>(ErrorCode::WouldBlock)
}

/// What a finish call answers when its operation is pending and the platform
/// reported `outcome`: success, or the platform's error unchanged.
pub open spec fn passed_on<T>(outcome: Result<T, ErrorCode>) -> Result<(), ErrorCode> {
    match outcome {
        Ok(_) => Ok(()),
        Err(e) => Err(e),
    }
}

impl SocketState {
    /// The local address: present once bound, listening or connected.
    pub open spec fn local(self) -> Option<IpSocketAddress> {
        match self {
            SocketState::Bound { local } => Some(local),
            SocketState::Listening { local } => Some(local),
            SocketState::Connected { local, .. } => Some(local),
            _ => None,
        }
    }

    /// The remote address: present once connected.
    pub open spec fn remote(self) -> Option<IpSocketAddress> {
        match self {
            SocketState::Connected { remote, .. } => Some(remote),
            _ => None,
        }
    }

    /// The operation in flight: present in the in-progress states.
    pub open spec fn pending(self) -> Option<PendingOperation> {
        match self {
            SocketState::BindInProgress { .. } => Some(PendingOperation::Bind),
            SocketState::ConnectInProgress { .. } => Some(PendingOperation::Connect),
            SocketState::ListenInProgress { .. } => Some(PendingOperation::Listen),
            _ => None,
        }
    }

    /// How far along the lifecycle a state is. A successful step never lowers
    /// it; only a definitive failure of a pending operation goes back, to the
    /// state the operation was started from.
    pub open spec fn rank(self) -> nat {
        match self {
            SocketState::Unbound => 0,
            SocketState::BindInProgress { .. } => 1,
            SocketState::Bound { .. } => 2,
            SocketState::ConnectInProgress { .. } => 3,
            SocketState::ListenInProgress { .. } => 3,
            SocketState::Connected { .. } => 4,
            SocketState::Listening { .. } => 4,
        }
    }
}

impl SocketOptions {
    /// The configuration of a new socket.
    pub open spec fn initial() -> SocketOptions {
        SocketOptions {
            ipv6_only: false,
            listen_backlog_size: DEFAULT_LISTEN_BACKLOG_SIZE,
            keep_alive: false,
            unicast_hop_limit: DEFAULT_UNICAST_HOP_LIMIT,
            receive_buffer_size: DEFAULT_BUFFER_SIZE,
            send_buffer_size: DEFAULT_BUFFER_SIZE,
        }
    }
}

impl SocketModel {
    /// A new socket of a family: unbound, with the initial configuration.
    pub open spec fn created(family: IpAddressFamily) -> SocketModel {
        SocketModel { family, state: SocketState::Unbound, options: SocketOptions::initial() }
    }

    /// The same socket in another state.
    pub open spec fn in_state(self, state: SocketState) -> SocketModel {
        SocketModel { state, ..self }
    }

    /// The same socket with another configuration.
    pub open spec fn configured(self, options: SocketOptions) -> SocketModel {
        SocketModel { options, ..self }
    }

    // ----- bind -----

    /// A bind can be started on an unbound socket and nowhere else.
    pub open spec fn start_bind_reply(self) -> Result<(), ErrorCode> {
        if self.state is Unbound {
            Ok(())
        } else {
            Err(ErrorCode::InvalidState)
        }
    }

    /// A bind that was started is in progress, towards the address asked for.
    pub open spec fn after_start_bind(self, requested: IpSocketAddress) -> SocketModel {
        if self.state is Unbound {
            self.in_state(SocketState::BindInProgress { requested })
        } else {
            self
        }
    }

    /// Without a pending bind: `NotInProgress`. With one: what the platform
    /// reported, `WouldBlock` included.
    pub open spec fn finish_bind_reply(self, outcome: Result<IpSocketAddress, ErrorCode>) -> Result<
        (),
        ErrorCode,
    > {
        if self.state is BindInProgress {
            passed_on(outcome)
        } else {
            Err(ErrorCode::NotInProgress)
        }
    }

    /// A pending bind ends bound to the address that the platform resolved,
    /// stays pending on `WouldBlock`, and ends unbound on any other error.
    pub open spec fn after_finish_bind(self, outcome: Result<IpSocketAddress, ErrorCode>) -> SocketModel {
        if self.state is BindInProgress {
            match outcome {
                Ok(local) => self.in_state(SocketState::Bound { local }),
                Err(ErrorCode::WouldBlock) => self,
                Err(_) => self.in_state(SocketState::Unbound),
            }
        } else {
            self
        }
    }

    // ----- connect -----

    /// A connect can be started on a bound socket and nowhere else.
    pub open spec fn start_connect_reply(self) -> Result<(), ErrorCode> {
        if self.state is Bound {
            Ok(())
        } else {
            Err(ErrorCode::InvalidState)
        }
    }

    /// A connect that was started is in progress, and keeps the binding.
    pub open spec fn after_start_connect(self, remote: IpSocketAddress) -> SocketModel {
        match self.state {
            SocketState::Bound { local } => self.in_state(SocketState::ConnectInProgress { local, remote }),
            _ => self,
        }
    }

    /// Without a pending connect: `NotInProgress`. With one: what the
    /// platform reported, `WouldBlock` included.
    pub open spec fn finish_connect_reply(self, outcome: Result<(), ErrorCode>) -> Result<(), ErrorCode> {
        if self.state is ConnectInProgress {
            passed_on(outcome)
        } else {
            Err(ErrorCode::NotInProgress)
        }
    }

    /// A pending connect ends connected to the address asked for, stays
    /// pending on `WouldBlock`, and ends bound as before on any other error.
    pub open spec fn after_finish_connect(self, outcome: Result<(), ErrorCode>) -> SocketModel {
        match self.state {
            SocketState::ConnectInProgress { local, remote } => match outcome {
                Ok(_) => self.in_state(
                    SocketState::Connected { local, remote, receive_shut: false, send_shut: false },
                ),
                Err(ErrorCode::WouldBlock) => self,
                Err(_) => self.in_state(SocketState::Bound { local }),
            },
            _ => self,
        }
    }

    // ----- listen -----

    /// A listen can be started on a bound socket and nowhere else.
    pub open spec fn start_listen_reply(self) -> Result<(), ErrorCode> {
        if self.state is Bound {
            Ok(())
        } else {
            Err(ErrorCode::InvalidState)
        }
    }

    /// A listen that was started is in progress, and keeps the binding.
    pub open spec fn after_start_listen(self) -> SocketModel {
        match self.state {
            SocketState::Bound { local } => self.in_state(SocketState::ListenInProgress { local }),
            _ => self,
        }
    }

    /// Without a pending listen: `NotInProgress`. With one: what the platform
    /// reported, `WouldBlock` included.
    pub open spec fn finish_listen_reply(self, outcome: Result<(), ErrorCode>) -> Result<(), ErrorCode> {
        if self.state is ListenInProgress {
            passed_on(outcome)
        } else {
            Err(ErrorCode::NotInProgress)
        }
    }

    /// A pending listen ends listening, stays pending on `WouldBlock`, and
    /// ends bound as before on any other error.
    pub open spec fn after_finish_listen(self, outcome: Result<(), ErrorCode>) -> SocketModel {
        match self.state {
            SocketState::ListenInProgress { local } => match outcome {
                Ok(_) => self.in_state(SocketState::Listening { local }),
                Err(ErrorCode::WouldBlock) => self,
                Err(_) => self.in_state(SocketState::Bound { local }),
            },
            _ => self,
        }
    }

    // ----- accept, shutdown, addresses -----

    /// What `accept` answers when the platform reported `incoming`: the peer's
    /// address of a connection that arrived, or why none was handed over. The
    /// new socket is connected from the listener's address to the peer and
    /// starts with the listener's family and configuration.
    pub open spec fn accept_reply(self, incoming: Result<IpSocketAddress, ErrorCode>) -> Result<
        SocketModel,
        ErrorCode,
    > {
        match self.state {
            SocketState::Listening { local } => match incoming {
                Ok(remote) => Ok(
                    self.in_state(
                        SocketState::Connected { local, remote, receive_shut: false, send_shut: false },
                    ),
                ),
                Err(e) => Err(e),
            },
            _ => Err(ErrorCode::InvalidState),
        }
    }

    /// Only a connected socket can be shut down.
    pub open spec fn shutdown_reply(self) -> Result<(), ErrorCode> {
        if self.state is Connected {
            Ok(())
        } else {
            Err(ErrorCode::InvalidState)
        }
    }

    /// A half that was shut stays shut; the halves that `how` names are shut.
    pub open spec fn after_shutdown(self, how: ShutdownType) -> SocketModel {
        match self.state {
            SocketState::Connected { local, remote, receive_shut, send_shut } => self.in_state(
                SocketState::Connected {
                    local,
                    remote,
                    receive_shut: receive_shut || how != ShutdownType::Send,
                    send_shut: send_shut || how != ShutdownType::Receive,
                },
            ),
            _ => self,
        }
    }

    /// The local address where there is one, else `InvalidState`.
    pub open spec fn local_address_reply(self) -> Result<IpSocketAddress, ErrorCode> {
        match self.state.local() {
            Some(local) => Ok(local),
            None => Err(ErrorCode::InvalidState),
        }
    }

    /// The remote address where there is one, else `InvalidState`.
    pub open spec fn remote_address_reply(self) -> Result<IpSocketAddress, ErrorCode> {
        match self.state.remote() {
            Some(remote) => Ok(remote),
            None => Err(ErrorCode::InvalidState),
        }
    }

    // ----- options -----

    /// The option exists on IPv6 sockets only.
    pub open spec fn ipv6_only_reply(self) -> Result<bool, ErrorCode> {
        if self.family == IpAddressFamily::Ipv6 {
            Ok(self.options.ipv6_only)
        } else {
            Err(ErrorCode::NotSupported)
        }
    }

    /// The family is looked at first: an IPv4 socket answers `NotSupported` in
    /// every state. An IPv6 socket accepts the setting only while unbound.
    pub open spec fn set_ipv6_only_reply(self) -> Result<(), ErrorCode> {
        if self.family != IpAddressFamily::Ipv6 {
            Err(ErrorCode::NotSupported)
        } else if self.state is Unbound {
            Ok(())
        } else {
            Err(ErrorCode::InvalidState)
        }
    }

    /// The option changes where the setting was accepted.
    pub open spec fn after_set_ipv6_only(self, value: bool) -> SocketModel {
        if self.set_ipv6_only_reply() is Ok {
            self.configured(SocketOptions { ipv6_only: value, ..self.options })
        } else {
            self
        }
    }

    /// The socket with another backlog.
    pub open spec fn after_set_listen_backlog_size(self, value: u64) -> SocketModel {
        self.configured(SocketOptions { listen_backlog_size: value, ..self.options })
    }

    /// The socket with keep-alive switched.
    pub open spec fn after_set_keep_alive(self, value: bool) -> SocketModel {
        self.configured(SocketOptions { keep_alive: value, ..self.options })
    }

    /// The socket with another hop limit.
    pub open spec fn after_set_unicast_hop_limit(self, value: u8) -> SocketModel {
        self.configured(SocketOptions { unicast_hop_limit: value, ..self.options })
    }

    /// The socket with another size of the receive buffer.
    pub open spec fn after_set_receive_buffer_size(self, value: u64) -> SocketModel {
        self.configured(SocketOptions { receive_buffer_size: value, ..self.options })
    }

    /// The socket with another size of the send buffer.
    pub open spec fn after_set_send_buffer_size(self, value: u64) -> SocketModel {
        self.configured(SocketOptions { send_buffer_size: value, ..self.options })
    }
}

} // verus!
