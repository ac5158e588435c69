//! From any address to the address of the key that signs for it.

use crate::account::{account_version_of, loaded, AccountVersion, State};
use crate::error::Error;
use crate::primitives::{is_key_class, Address, Cid, Protocol};
use crate::state_tree::StateTree;
use vstd::prelude::*;

verus! {

/// Whether `r` is the key address that an account actor of generation `v`
/// resolves to, given that the store answers `fetched` for its state.
pub open spec fn key_from(
    v: AccountVersion,
    fetched: Result<Option<Address>, Error>,
    r: Result<Address, Error>,
) -> bool {
    match loaded(v, fetched) {
        Ok(st) => r is Ok && r.unwrap()@ == st.key()@,
        Err(e) => r == Err::<Address, Error>(e),
    }
}

/// The address of the signing key of the account actor at `addr`.
///
/// A BLS or secp256k1 address is its own key: it is handed back, and
/// neither the tree nor the store is asked. For any other address the
/// actor is looked up in `st` and its account state is loaded through
/// `fetch`, which stands for the store as in `State::load`.
pub fn resolve_to_key_addr<S, F: FnOnce(AccountVersion, &Cid) -> Result<Option<Address>, Error>>(
    st: &StateTree<S>,
    fetch: F,
    addr: &Address,
) -> (r: Result<Address, Error>)
    requires
        st.wf(),
        !is_key_class(addr@.protocol) ==> forall|v: AccountVersion, c: Cid|
            call_requires(fetch, (v, &c)),
    ensures
        is_key_class(addr@.protocol) ==> r is Ok && r.unwrap()@ == addr@,
        !is_key_class(addr@.protocol) ==> match st.actor_of(addr@) {
            None => r == Err::<Address, Error>(Error::ActorNotFound),
            Some(actor) => match account_version_of(actor.code) {
                None => r == Err::<Address, Error>(Error::UnknownActorCode),
                Some(v) => exists|root: Cid, fetched: Result<Option<Address>, Error>|
                    root@ == actor.state && #[trigger] call_ensures(fetch, (v, &root), fetched)
                        && key_from(v, fetched, r),
            },
        },
{
    if addr.protocol() == Protocol::BLS || addr.protocol() == Protocol::Secp256k1 {
        return Ok(addr.duplicate());
    }
    let act = match st.get_actor(addr) {
        Ok(Some(act)) => act,
        Ok(None) => {
            return Err(Error::ActorNotFound);
        },
        Err(e) => {
            return Err(e);
        },
    };
    match State::load(fetch, &act) {
        Ok(acc_st) => Ok(acc_st.pubkey_address()),
        Err(e) => Err(e),
    }
}

} // verus!
