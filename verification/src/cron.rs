//! The cron actor.

use crate::primitives::{Address, AddressView, Protocol};
use crate::table::ActorID;
use vstd::prelude::*;

verus! {

/// The actor ID of the cron actor.
pub const CRON_ACTOR_ID: ActorID = 3;

/// Cron actor address.
pub fn address() -> (a: Address)
    ensures
        a@ == (AddressView {
            protocol: Protocol::ID,
            number: CRON_ACTOR_ID,
            payload: Seq::empty(),
        }),
        a.wf(),
{
    Address::new_id(CRON_ACTOR_ID)
}

} // verus!
