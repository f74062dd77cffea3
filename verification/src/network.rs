//! The capability that permits binding and connecting.

use vstd::prelude::*;

verus! {

/// Permission to bind and connect sockets.
///
/// A socket never owns it: it is passed by reference into the operations that
/// reach the network, and any number of sockets may share one. It carries no
/// state of its own.
#[derive(Debug)]
pub struct Network {}

impl Default for Network {
    fn default() -> (net: Network)
        ensures
            net == (Network {}),
    {
        Network {}
    }
}

} // verus!
