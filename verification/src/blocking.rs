//! The blocking conveniences: start an operation, then finish it with the
//! platform's answers, one after the other, until one of them settles it.

use vstd::prelude::*;
use crate::address::IpSocketAddress;
use crate::error::ErrorCode;
use crate::model::{passed_on, settled, SocketModel, SocketState};
use crate::network::Network;
use crate::tcp::TcpSocket;

verus! {

/// Each of the first `k` answers was `WouldBlock`.
pub open spec fn pending_through<T>(polls: Seq<Result<T, ErrorCode>>, k: int) -> bool {
    forall|j: int| 0 <= j < k && j < polls.len() ==> !settled(#[trigger] polls[j])
}

/// The answer at `k` is the first that is not `WouldBlock`.
pub open spec fn settles_at<T>(polls: Seq<Result<T, ErrorCode>>, k: int) -> bool {
    0 <= k < polls.len() && pending_through(polls, k) && settled(polls[k])
}

/// The first answer that is not `WouldBlock`, if there is one.
pub open spec fn first_settled<T>(polls: Seq<Result<T, ErrorCode>>) -> Option<Result<T, ErrorCode>> {
    if exists|k: int| settles_at(polls, k) {
        Some(polls[choose|k: int| settles_at(polls, k)])
    } else {
        None
    }
}

/// At most one answer is the first settled one: where the answer at `k` is,
/// `first_settled` is that answer.
pub proof fn first_settled_is_unique<T>(polls: Seq<Result<T, ErrorCode>>, k: int)
    requires
        settles_at(polls, k),
    ensures
        first_settled(polls) == Some(polls[k]),
{
    let c = choose|c: int| settles_at(polls, c);
    assert(settles_at(polls, c));
    if c < k {
        assert(!settled(polls[c]));
    }
    if k < c {
        assert(!settled(polls[k]));
    }
}

/// Where every answer is `WouldBlock`, none settles.
pub proof fn all_pending_never_settles<T>(polls: Seq<Result<T, ErrorCode>>)
    requires
        pending_through(polls, polls.len() as int),
    ensures
        first_settled(polls) is None,
{
    assert forall|k: int| !settles_at(polls, k) by {
        if 0 <= k < polls.len() {
            assert(!settled(polls[k]));
        }
    }
}

impl SocketModel {
    /// The answer of a bind that is started and then finished with `polls` in
    /// turn: the refusal of the start; else the answer to the first settled
    /// poll; else `WouldBlock`, when the polls ran out first.
    pub open spec fn blocking_bind_reply(self, polls: Seq<Result<IpSocketAddress, ErrorCode>>) -> Result<
        (),
        ErrorCode,
    > {
        if self.start_bind_reply() is Err {
            self.start_bind_reply()
        } else {
            match first_settled(polls) {
                Some(outcome) => passed_on(outcome),
                None => Err(ErrorCode::WouldBlock),
            }
        }
    }

    /// The socket after such a bind: unchanged where the start was refused;
    /// else started, and finished with the first settled poll if there is one.
    pub open spec fn after_blocking_bind(
        self,
        requested: IpSocketAddress,
        polls: Seq<Result<IpSocketAddress, ErrorCode>>,
    ) -> SocketModel {
        if self.start_bind_reply() is Err {
            self
        } else {
            match first_settled(polls) {
                Some(outcome) => self.after_start_bind(requested).after_finish_bind(outcome),
                None => self.after_start_bind(requested),
            }
        }
    }

    /// The answer of a connect that is started and then finished with `polls`
    /// in turn.
    pub open spec fn blocking_connect_reply(self, polls: Seq<Result<(), ErrorCode>>) -> Result<(), ErrorCode> {
        if self.start_connect_reply() is Err {
            self.start_connect_reply()
        } else {
            match first_settled(polls) {
                Some(outcome) => passed_on(outcome),
                None => Err(ErrorCode::WouldBlock),
            }
        }
    }

    /// The socket after such a connect.
    pub open spec fn after_blocking_connect(
        self,
        remote: IpSocketAddress,
        polls: Seq<Result<(), ErrorCode>>,
    ) -> SocketModel {
        if self.start_connect_reply() is Err {
            self
        } else {
            match first_settled(polls) {
                Some(outcome) => self.after_start_connect(remote).after_finish_connect(outcome),
                None => self.after_start_connect(remote),
            }
        }
    }

    /// The answer of a listen that is started and then finished with `polls`
    /// in turn.
    pub open spec fn blocking_listen_reply(self, polls: Seq<Result<(), ErrorCode>>) -> Result<(), ErrorCode> {
        if self.start_listen_reply() is Err {
            self.start_listen_reply()
        } else {
            match first_settled(polls) {
                Some(outcome) => passed_on(outcome),
                None => Err(ErrorCode::WouldBlock),
            }
        }
    }

    /// The socket after such a listen.
    pub open spec fn after_blocking_listen(self, polls: Seq<Result<(), ErrorCode>>) -> SocketModel {
        if self.start_listen_reply() is Err {
            self
        } else {
            match first_settled(polls) {
                Some(outcome) => self.after_start_listen().after_finish_listen(outcome),
                None => self.after_start_listen(),
            }
        }
    }
}

/// A blocking operation succeeds exactly when its start is legal and the
/// first answer that is not `WouldBlock` is a success.
pub proof fn blocking_succeeds_on_first_success(
    s: SocketModel,
    bind_polls: Seq<Result<IpSocketAddress, ErrorCode>>,
    polls: Seq<Result<(), ErrorCode>>,
)
    ensures
        s.blocking_bind_reply(bind_polls) is Ok <==> s.state is Unbound && first_settled(bind_polls)
            matches Some(Ok(_)),
        s.blocking_connect_reply(polls) is Ok <==> s.state is Bound && first_settled(polls) matches Some(
            Ok(_),
        ),
        s.blocking_listen_reply(polls) is Ok <==> s.state is Bound && first_settled(polls) matches Some(
            Ok(_),
        ),
{
}

/// After a blocking bind that succeeded the socket is bound: its local
/// address is the one that the platform resolved, and it has no remote
/// address yet.
pub proof fn bound_after_blocking_bind(
    s: SocketModel,
    requested: IpSocketAddress,
    polls: Seq<Result<IpSocketAddress, ErrorCode>>,
)
    requires
        s.blocking_bind_reply(polls) is Ok,
    ensures
        first_settled(polls) matches Some(Ok(resolved)) && s.after_blocking_bind(requested, polls).state
            == (SocketState::Bound { local: resolved }) && s.after_blocking_bind(
            requested,
            polls,
        ).local_address_reply() == Ok::<IpSocketAddress, ErrorCode>(resolved),
        s.after_blocking_bind(requested, polls).remote_address_reply() == Err::<
            IpSocketAddress,
            ErrorCode,
        >(ErrorCode::InvalidState),
        s.after_blocking_bind(requested, polls).family == s.family,
{
}

/// After a blocking listen that succeeded the socket listens, and a peer
/// that connects is accepted as a new connected socket. Its remote address
/// is the peer's address; for a peer whose address is not the listener's own,
/// it differs from the listener's local address.
pub proof fn accepts_after_blocking_listen(
    s: SocketModel,
    polls: Seq<Result<(), ErrorCode>>,
    peer: IpSocketAddress,
)
    requires
        s.blocking_listen_reply(polls) is Ok,
        s.state.local() != Some(peer),
    ensures
        s.after_blocking_listen(polls).state is Listening,
        s.after_blocking_listen(polls).local_address_reply() == s.local_address_reply(),
        s.after_blocking_listen(polls).accept_reply(Ok(peer)) matches Ok(accepted) && accepted.state
            is Connected && accepted.remote_address_reply() == Ok::<IpSocketAddress, ErrorCode>(peer)
            && accepted.remote_address_reply() != s.after_blocking_listen(polls).local_address_reply(),
{
}

/// After a blocking connect that succeeded the socket is connected: its
/// local address is the one it was bound to, its remote address is the one
/// it connected to, and its family is the one it was created with.
pub proof fn connected_after_blocking_connect(
    s: SocketModel,
    remote: IpSocketAddress,
    polls: Seq<Result<(), ErrorCode>>,
)
    requires
        s.blocking_connect_reply(polls) is Ok,
    ensures
        s.after_blocking_connect(remote, polls).state is Connected,
        s.after_blocking_connect(remote, polls).local_address_reply() is Ok,
        s.after_blocking_connect(remote, polls).local_address_reply() == s.local_address_reply(),
        s.after_blocking_connect(remote, polls).remote_address_reply() == Ok::<
            IpSocketAddress,
            ErrorCode,
        >(remote),
        s.after_blocking_connect(remote, polls).family == s.family,
{
}

impl TcpSocket {
    /// Starts a bind and finishes it with `polls`, the platform's answers in
    /// the order in which they came, up to the first that is not `WouldBlock`.
    /// Answers after that one are not looked at. Where all of them are
    /// `WouldBlock` the bind stays pending and the answer is `WouldBlock`.
    pub fn blocking_bind(
        &mut self,
        network: &Network,
        local_address: IpSocketAddress,
        polls: &Vec<Result<IpSocketAddress, ErrorCode>>,
    ) -> (r: Result<(), ErrorCode>)
        ensures
            r == old(self)@.blocking_bind_reply(polls@),
            final(self)@ == old(self)@.after_blocking_bind(local_address, polls@),
    {
        let started = self.start_bind(network, local_address);
        if started.is_err() {
            return started;
        }
        let mut i: usize = 0;
        while i < polls.len()
            invariant
                i <= polls.len(),
                pending_through(polls@, i as int),
                self@ == old(self)@.after_start_bind(local_address),
                old(self)@.start_bind_reply() is Ok,
            decreases polls.len() - i,
        {
            let finished = self.finish_bind(polls[i]);
            match finished {
                Err(ErrorCode::WouldBlock) => {},
                _ => {
                    proof {
                        first_settled_is_unique(polls@, i as int);
                    }
                    return finished;
                },
            }
            i += 1;
        }
        proof {
            all_pending_never_settles(polls@);
        }
        Err(ErrorCode::WouldBlock)
    }

    /// Starts a connect and finishes it with `polls`, as `blocking_bind` does
    /// for a bind.
    pub fn blocking_connect(
        &mut self,
        network: &Network,
        remote_address: IpSocketAddress,
        polls: &Vec<Result<(), ErrorCode>>,
    ) -> (r: Result<(), ErrorCode>)
        ensures
            r == old(self)@.blocking_connect_reply(polls@),
            final(self)@ == old(self)@.after_blocking_connect(remote_address, polls@),
    {
        let started = self.start_connect(network, remote_address);
        if started.is_err() {
            return started;
        }
        let mut i: usize = 0;
        while i < polls.len()
            invariant
                i <= polls.len(),
                pending_through(polls@, i as int),
                self@ == old(self)@.after_start_connect(remote_address),
                old(self)@.start_connect_reply() is Ok,
            decreases polls.len() - i,
        {
            let finished = self.finish_connect(polls[i]);
            match finished {
                Err(ErrorCode::WouldBlock) => {},
                _ => {
                    proof {
                        first_settled_is_unique(polls@, i as int);
                    }
                    return finished;
                },
            }
            i += 1;
        }
        proof {
            all_pending_never_settles(polls@);
        }
        Err(ErrorCode::WouldBlock)
    }

    /// Starts a listen and finishes it with `polls`, as `blocking_bind` does
    /// for a bind.
    pub fn blocking_listen(&mut self, polls: &Vec<Result<(), ErrorCode>>) -> (r: Result<(), ErrorCode>)
        ensures
            r == old(self)@.blocking_listen_reply(polls@),
            final(self)@ == old(self)@.after_blocking_listen(polls@),
    {
        let started = self.start_listen();
        if started.is_err() {
            return started;
        }
        let mut i: usize = 0;
        while i < polls.len()
            invariant
                i <= polls.len(),
                pending_through(polls@, i as int),
                self@ == old(self)@.after_start_listen(),
                old(self)@.start_listen_reply() is Ok,
            decreases polls.len() - i,
        {
            let finished = self.finish_listen(polls[i]);
            match finished {
                Err(ErrorCode::WouldBlock) => {},
                _ => {
                    proof {
                        first_settled_is_unique(polls@, i as int);
                    }
                    return finished;
                },
            }
            i += 1;
        }
        proof {
            all_pending_never_settles(polls@);
        }
        Err(ErrorCode::WouldBlock)
    }
}

} // verus!
