//! The failures that the library reports.

use vstd::prelude::*;

verus! {

/// Why an operation of this library was given up. None of them is retried.
#[derive(Clone, Debug, PartialEq, Eq)]
pub enum Error {
    /// The requested round lies after the epoch of the tipset it is drawn from.
    FutureRandomness,
    /// The tipset that was found carries no leader-election ticket.
    MissingTicket,
    /// No beacon entry of the wanted round within the bounded ancestor walk.
    BeaconNotFound,
    /// The root is readable under no supported state-tree encoding.
    UnsupportedStateTreeVersion,
    /// The address has no actor ID bound to it, and the encoding needs one.
    UnresolvedActorID,
    /// The actor's code identifier is on no list of account-actor codes.
    UnknownActorCode,
    /// The state tree holds no actor under the address.
    ActorNotFound,
    /// The store holds no block under the actor's state root.
    StateNotFound,
    /// A collaborator answered with something that was not asked for.
    UnexpectedReply,
    /// A failure of the store or of the chain history, handed on as it came.
    Store(String),
}

} // verus!
