//! Content identifiers, addresses and token amounts as plain values.

use vstd::prelude::*;

verus! {

/// Whether two byte strings hold the same bytes.
pub fn bytes_eq(a: &[u8], b: &[u8]) -> (same: bool)
    ensures
        same == (a@ == b@),
{
    if a.len() != b.len() {
        return false;
    }
    let mut i: usize = 0;
    while i < a.len()
        invariant
            a@.len() == b@.len(),
            i <= a@.len(),
            forall|k: int| 0 <= k < i ==> a@[k] == b@[k],
        decreases a@.len() - i,
    {
        if a[i] != b[i] {
            return false;
        }
        i = i + 1;
    }
    assert(a@ =~= b@);
    true
}

/// A fresh vector with the bytes of `a`.
pub fn copy_bytes(a: &[u8]) -> (out: Vec<u8>)
    ensures
        out@ == a@,
{
    let mut out: Vec<u8> = Vec::new();
    let mut i: usize = 0;
    while i < a.len()
        invariant
            i <= a@.len(),
            out@ == a@.subrange(0, i as int),
        decreases a@.len() - i,
    {
        out.push(a[i]);
        i = i + 1;
        assert(out@ =~= a@.subrange(0, i as int));
    }
    assert(out@ =~= a@);
    out
}

/// The binary form of the content identifier that `text` spells, where it
/// spells one.
pub uninterp spec fn cid_text_bytes(text: Seq<char>) -> Option<Seq<u8>>;

/// The view of an optional byte vector.
pub open spec fn opt_bytes_view(bytes: Option<Vec<u8>>) -> Option<Seq<u8>> {
    match bytes {
        Some(b) => Some(b@),
        None => None,
    }
}

/// `cid::Cid::try_from` on a string, and `Cid::to_bytes` on what it gives:
/// the binary form of the identifier, or nothing where the text is refused.
/// The decoding is not modelled: the contract names it.
#[verifier::external_body]
pub(crate) fn decode_cid_text(text: &str) -> (out: Option<Vec<u8>>)
    ensures
        opt_bytes_view(out) == cid_text_bytes(text@),
{
    match cid::Cid::try_from(text) {
        Ok(c) => Some(c.to_bytes()),
        Err(_) => None,
    }
}

/// A content identifier, held in its binary form.
#[derive(Clone, Debug, PartialEq, Eq)]
pub struct Cid {
    pub bytes: Vec<u8>,
}

impl View for Cid {
    type V = Seq<u8>;

    open spec fn view(&self) -> Seq<u8> {
        self.bytes@
    }
}

impl Cid {
    /// The identifier whose binary form is `bytes`.
    pub fn from_bytes(bytes: Vec<u8>) -> (c: Cid)
        ensures
            c@ == bytes@,
    {
        Cid { bytes }
    }

    /// The identifier that `text` spells, if it spells one.
    pub fn parse(text: &str) -> (c: Option<Cid>)
        ensures
            match c {
                Some(c) => cid_text_bytes(text@) == Some(c@),
                None => cid_text_bytes(text@) is None,
            },
    {
        match decode_cid_text(text) {
            Some(bytes) => Some(Cid { bytes }),
            None => None,
        }
    }

    /// Whether `self` and `other` identify the same content.
    pub fn same(&self, other: &Cid) -> (r: bool)
        ensures
            r == (self@ == other@),
    {
        bytes_eq(self.bytes.as_slice(), other.bytes.as_slice())
    }

    /// A copy of the identifier.
    pub fn duplicate(&self) -> (c: Cid)
        ensures
            c@ == self@,
    {
        Cid { bytes: copy_bytes(self.bytes.as_slice()) }
    }
}

/// The class of an address.
#[derive(Clone, Copy, Debug, PartialEq, Eq, Structural)]
pub enum Protocol {
    ID,
    Secp256k1,
    Actor,
    BLS,
    Delegated,
}

/// What an address is, as a mathematical value.
pub ghost struct AddressView {
    pub protocol: Protocol,
    pub number: u64,
    pub payload: Seq<u8>,
}

/// Payload length of a secp256k1 or actor address.
pub const PAYLOAD_HASH_LENGTH: usize = 20;

/// Payload length of a BLS address.
pub const BLS_PUB_LEN: usize = 48;

/// Longest sub-address of a delegated address.
pub const MAX_SUBADDRESS_LEN: usize = 54;

/// An address: its class, the actor ID or namespace where the class has one,
/// and the key, hash or sub-address bytes where it has them.
#[derive(Clone, Debug, PartialEq, Eq)]
pub struct Address {
    protocol: Protocol,
    number: u64,
    payload: Vec<u8>,
}

impl View for Address {
    type V = AddressView;

    closed spec fn view(&self) -> AddressView {
        AddressView { protocol: self.protocol, number: self.number, payload: self.payload@ }
    }
}

/// Whether the parts of an address fit its class.
pub open spec fn address_valid(a: AddressView) -> bool {
    match a.protocol {
        Protocol::ID => a.payload.len() == 0,
        Protocol::Secp256k1 => a.number == 0 && a.payload.len() == PAYLOAD_HASH_LENGTH,
        Protocol::Actor => a.number == 0 && a.payload.len() == PAYLOAD_HASH_LENGTH,
        Protocol::BLS => a.number == 0 && a.payload.len() == BLS_PUB_LEN,
        Protocol::Delegated => a.payload.len() <= MAX_SUBADDRESS_LEN,
    }
}

/// Whether an address of this class is itself a signing key.
pub open spec fn is_key_class(p: Protocol) -> bool {
    p == Protocol::BLS || p == Protocol::Secp256k1
}

impl Address {
    /// Whether the address fits its class. The constructors give only such
    /// addresses.
    pub open spec fn wf(&self) -> bool {
        address_valid(self@)
    }

    /// The address of the actor with this ID.
    pub fn new_id(id: u64) -> (a: Address)
        ensures
            a@ == (AddressView { protocol: Protocol::ID, number: id, payload: Seq::empty() }),
            a.wf(),
    {
        Address { protocol: Protocol::ID, number: id, payload: Vec::new() }
    }

    /// The address of `protocol` with these key or hash bytes, where their
    /// length fits the class. ID and delegated addresses have constructors
    /// of their own.
    pub fn new_keyed(protocol: Protocol, payload: Vec<u8>) -> (a: Option<Address>)
        ensures
            match a {
                Some(a) => a@ == (AddressView { protocol, number: 0, payload: payload@ })
                    && address_valid(a@),
                None => protocol == Protocol::ID || protocol == Protocol::Delegated
                    || !address_valid(AddressView { protocol, number: 0, payload: payload@ }),
            },
            a is Some <==> protocol != Protocol::ID && protocol != Protocol::Delegated
                && address_valid(AddressView { protocol, number: 0, payload: payload@ }),
    {
        let fits = match protocol {
            Protocol::Secp256k1 => payload.len() == PAYLOAD_HASH_LENGTH,
            Protocol::Actor => payload.len() == PAYLOAD_HASH_LENGTH,
            Protocol::BLS => payload.len() == BLS_PUB_LEN,
            Protocol::ID => false,
            Protocol::Delegated => false,
        };
        if fits {
            Some(Address { protocol, number: 0, payload })
        } else {
            None
        }
    }

    /// The delegated address in `namespace` with this sub-address, where the
    /// sub-address is not too long.
    pub fn new_delegated(namespace: u64, subaddress: Vec<u8>) -> (a: Option<Address>)
        ensures
            a is Some <==> subaddress@.len() <= MAX_SUBADDRESS_LEN,
            a is Some ==> a.unwrap()@ == (AddressView {
                protocol: Protocol::Delegated,
                number: namespace,
                payload: subaddress@,
            }),
    {
        if subaddress.len() <= MAX_SUBADDRESS_LEN {
            Some(Address { protocol: Protocol::Delegated, number: namespace, payload: subaddress })
        } else {
            None
        }
    }

    /// The class of the address.
    pub fn protocol(&self) -> (p: Protocol)
        ensures
            p == self@.protocol,
    {
        self.protocol
    }

    /// The actor ID of an ID address, the namespace of a delegated one.
    pub fn number(&self) -> (n: u64)
        ensures
            n == self@.number,
    {
        self.number
    }

    /// The key, hash or sub-address bytes.
    pub fn payload(&self) -> (p: &Vec<u8>)
        ensures
            p@ == self@.payload,
    {
        &self.payload
    }

    /// Whether the two addresses are the same address.
    pub fn same(&self, other: &Address) -> (r: bool)
        ensures
            r == (self@ == other@),
    {
        self.protocol == other.protocol && self.number == other.number && bytes_eq(
            self.payload.as_slice(),
            other.payload.as_slice(),
        )
    }

    /// A copy of the address.
    pub fn duplicate(&self) -> (a: Address)
        ensures
            a@ == self@,
            a.wf() == self.wf(),
    {
        Address {
            protocol: self.protocol,
            number: self.number,
            payload: copy_bytes(self.payload.as_slice()),
        }
    }
}

/// An amount of tokens, counted in the smallest unit.
#[derive(Clone, Copy, Debug, PartialEq, Eq, Structural)]
pub struct TokenAmount {
    pub atto: i128,
}

impl TokenAmount {
    /// The amount of `atto` smallest units.
    pub fn from_atto(atto: i128) -> (t: TokenAmount)
        ensures
            t.atto == atto,
    {
        TokenAmount { atto }
    }
}

} // verus!
