//! The state of account actors, in each of its generations.

use crate::error::Error;
use crate::primitives::{bytes_eq, cid_text_bytes, decode_cid_text, opt_bytes_view, Address, Cid};
use crate::state_tree::ActorState;
use vstd::prelude::*;

verus! {

/// Whether `decoded` holds the binary form of `cid`.
pub fn is_identifier(decoded: &Option<Vec<u8>>, cid: &Cid) -> (r: bool)
    ensures
        r == (opt_bytes_view(*decoded) == Some(cid@)),
{
    match decoded {
        Some(bytes) => bytes_eq(bytes.as_slice(), cid.bytes.as_slice()),
        None => false,
    }
}

/// Whether `text` spells `cid`.
pub fn spells(text: &str, cid: &Cid) -> (r: bool)
    ensures
        r == (cid_text_bytes(text@) == Some(cid@)),
{
    let decoded = decode_cid_text(text);
    is_identifier(&decoded, cid)
}

/// Whether `cid` is the code of an account actor of generation 8, on one of
/// the three networks that have it.
pub open spec fn v8_account_code(cid: Seq<u8>) -> bool {
    ||| cid_text_bytes("bafk2bzacecruossn66xqbeutqx5r4k2kjzgd43frmwd4qkw6haez44ubvvpxo"@) == Some(
        cid,
    )
    ||| cid_text_bytes("bafk2bzacedudbf7fc5va57t3tmo63snmt3en4iaidv4vo3qlyacbxaa6hlx6y"@) == Some(
        cid,
    )
    ||| cid_text_bytes("bafk2bzacea4tlgnp7m6tlldpz3termlwxlnyq24nwd4zdzv4r6nsjuaktuuzc"@) == Some(
        cid,
    )
}

/// Whether `cid` is the code of an account actor of generation 9.
pub open spec fn v9_account_code(cid: Seq<u8>) -> bool {
    ||| cid_text_bytes("bafk2bzaceavfgpiw6whqigmskk74z4blm22nwjfnzxb4unlqz2e4wg3c5ujpw"@) == Some(
        cid,
    )
    ||| cid_text_bytes("bafk2bzacect2p7urje3pylrrrjy3tngn6yaih4gtzauuatf2jllk3ksgfiw2y"@) == Some(
        cid,
    )
}

/// Whether `cid` is the code of an account actor of generation 10.
pub open spec fn v10_account_code(cid: Seq<u8>) -> bool {
    ||| cid_text_bytes("bafk2bzacebhfuz3sv7duvk653544xsxhdn4lsmy7ol7k6gdgancyctvmd7lnq"@) == Some(
        cid,
    )
    ||| cid_text_bytes("bafk2bzacect72amqxedrtjymuq5lfrskk2itnniyfa5gdvqp5sjoeeb33oi2e"@) == Some(
        cid,
    )
}

pub fn is_v8_account_cid(cid: &Cid) -> (r: bool)
    ensures
        r == v8_account_code(cid@),
{
    // calibration network, main network, development network
    spells("bafk2bzacecruossn66xqbeutqx5r4k2kjzgd43frmwd4qkw6haez44ubvvpxo", cid) || spells(
        "bafk2bzacedudbf7fc5va57t3tmo63snmt3en4iaidv4vo3qlyacbxaa6hlx6y",
        cid,
    ) || spells("bafk2bzacea4tlgnp7m6tlldpz3termlwxlnyq24nwd4zdzv4r6nsjuaktuuzc", cid)
}

pub fn is_v9_account_cid(cid: &Cid) -> (r: bool)
    ensures
        r == v9_account_code(cid@),
{
    // calibration network, main network
    spells("bafk2bzaceavfgpiw6whqigmskk74z4blm22nwjfnzxb4unlqz2e4wg3c5ujpw", cid) || spells(
        "bafk2bzacect2p7urje3pylrrrjy3tngn6yaih4gtzauuatf2jllk3ksgfiw2y",
        cid,
    )
}

pub fn is_v10_account_cid(cid: &Cid) -> (r: bool)
    ensures
        r == v10_account_code(cid@),
{
    // calibration network, main network
    spells("bafk2bzacebhfuz3sv7duvk653544xsxhdn4lsmy7ol7k6gdgancyctvmd7lnq", cid) || spells(
        "bafk2bzacect72amqxedrtjymuq5lfrskk2itnniyfa5gdvqp5sjoeeb33oi2e",
        cid,
    )
}

/// A generation of the account actor's state.
#[derive(Clone, Copy, Debug, PartialEq, Eq, Structural)]
pub enum AccountVersion {
    V8,
    V9,
    V10,
}

/// The generation that a code identifier stands for. The lists are asked in
/// the order of the generations.
pub open spec fn account_version_of(code: Seq<u8>) -> Option<AccountVersion> {
    if v8_account_code(code) {
        Some(AccountVersion::V8)
    } else if v9_account_code(code) {
        Some(AccountVersion::V9)
    } else if v10_account_code(code) {
        Some(AccountVersion::V10)
    } else {
        None
    }
}

/// The generation of account state that `code` stands for, if it is the
/// code of an account actor.
pub fn account_version(code: &Cid) -> (v: Option<AccountVersion>)
    ensures
        v == account_version_of(code@),
{
    if is_v8_account_cid(code) {
        Some(AccountVersion::V8)
    } else if is_v9_account_cid(code) {
        Some(AccountVersion::V9)
    } else if is_v10_account_cid(code) {
        Some(AccountVersion::V10)
    } else {
        None
    }
}

/// What an account actor keeps: the address of its signing key.
#[derive(Clone, Debug, PartialEq, Eq)]
pub struct AccountState {
    pub address: Address,
}

/// Account actor state.
#[derive(Clone, Debug, PartialEq, Eq)]
pub enum State {
    V8(AccountState),
    V9(AccountState),
    V10(AccountState),
}

/// The state of generation `version` that keeps `address`.
pub open spec fn state_of(version: AccountVersion, address: Address) -> State {
    match version {
        AccountVersion::V8 => State::V8(AccountState { address }),
        AccountVersion::V9 => State::V9(AccountState { address }),
        AccountVersion::V10 => State::V10(AccountState { address }),
    }
}

/// What loading gives once the store has answered with `fetched`: the
/// store's failure, `StateNotFound` where it holds nothing, else the state.
pub open spec fn loaded(version: AccountVersion, fetched: Result<Option<Address>, Error>) -> Result<
    State,
    Error,
> {
    match fetched {
        Ok(Some(address)) => Ok(state_of(version, address)),
        Ok(None) => Err(Error::StateNotFound),
        Err(e) => Err(e),
    }
}

impl State {
    /// The state of generation `version` from what the store gave for the
    /// actor's state root.
    pub fn from_fetched(version: AccountVersion, fetched: Result<Option<Address>, Error>) -> (r:
        Result<State, Error>)
        ensures
            r == loaded(version, fetched),
    {
        match fetched {
            Ok(Some(address)) => Ok(
                match version {
                    AccountVersion::V8 => State::V8(AccountState { address }),
                    AccountVersion::V9 => State::V9(AccountState { address }),
                    AccountVersion::V10 => State::V10(AccountState { address }),
                },
            ),
            Ok(None) => Err(Error::StateNotFound),
            Err(e) => Err(e),
        }
    }

    /// Loads the account state of `actor`. `fetch` stands for the store: it
    /// is given the generation of `actor`'s code and its state root, and
    /// answers with the signing-key address that the block under that root
    /// holds in that generation's schema. It is not called where the code
    /// is that of no account actor.
    pub fn load<F: FnOnce(AccountVersion, &Cid) -> Result<Option<Address>, Error>>(
        fetch: F,
        actor: &ActorState,
    ) -> (r: Result<State, Error>)
        requires
            account_version_of(actor.0.code@) matches Some(v) ==> call_requires(
                fetch,
                (v, &actor.0.state),
            ),
        ensures
            match account_version_of(actor.0.code@) {
                Some(v) => exists|fetched: Result<Option<Address>, Error>|
                    #[trigger] call_ensures(fetch, (v, &actor.0.state), fetched) && r == loaded(
                        v,
                        fetched,
                    ),
                None => r == Err::<State, Error>(Error::UnknownActorCode),
            },
    {
        match account_version(&actor.0.code) {
            Some(version) => {
                let fetched = fetch(version, &actor.0.state);
                State::from_fetched(version, fetched)
            },
            None => Err(Error::UnknownActorCode),
        }
    }

    /// The address of the signing key, whatever the generation.
    pub open spec fn key(self) -> Address {
        match self {
            State::V8(st) => st.address,
            State::V9(st) => st.address,
            State::V10(st) => st.address,
        }
    }

    pub fn pubkey_address(&self) -> (a: Address)
        ensures
            a@ == self.key()@,
    {
        match self {
            State::V8(st) => st.address.duplicate(),
            State::V9(st) => st.address.duplicate(),
            State::V10(st) => st.address.duplicate(),
        }
    }
}

} // verus!
