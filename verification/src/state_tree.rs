//! Actor states in one shape over the state trees of two protocol
//! generations.

use crate::error::Error;
use crate::primitives::{Address, AddressView, Cid, Protocol, TokenAmount};
use crate::table::{ActorID, Table};
use vstd::prelude::*;
use vstd::std_specs::convert::FromSpecImpl;

verus! {

/// What an actor's record says, as a mathematical value.
pub ghost struct ActorView {
    pub code: Seq<u8>,
    pub state: Seq<u8>,
    pub sequence: u64,
    pub balance: TokenAmount,
    pub delegated_address: Option<AddressView>,
}

/// The view of an optional address.
pub open spec fn opt_address_view(a: Option<Address>) -> Option<AddressView> {
    match a {
        Some(a) => Some(a@),
        None => None,
    }
}

/// `v` without its delegated address: what the older generation keeps.
pub open spec fn without_delegated(v: ActorView) -> ActorView {
    ActorView { delegated_address: None, ..v }
}

/// An actor's record in the older generation.
#[derive(Clone, Debug, PartialEq, Eq)]
pub struct ActorStateV2 {
    pub code: Cid,
    pub state: Cid,
    pub sequence: u64,
    pub balance: TokenAmount,
}

/// An actor's record in the newest generation.
#[derive(Clone, Debug, PartialEq, Eq)]
pub struct ActorStateV3 {
    pub code: Cid,
    pub state: Cid,
    pub sequence: u64,
    pub balance: TokenAmount,
    pub delegated_address: Option<Address>,
}

/// An actor's record in the one shape that callers see: that of the newest
/// generation, which holds every field of the older one.
#[derive(Clone, Debug, PartialEq, Eq)]
pub struct ActorState(pub ActorStateV3);

impl View for ActorStateV2 {
    type V = ActorView;

    open spec fn view(&self) -> ActorView {
        ActorView {
            code: self.code@,
            state: self.state@,
            sequence: self.sequence,
            balance: self.balance,
            delegated_address: None,
        }
    }
}

impl View for ActorStateV3 {
    type V = ActorView;

    open spec fn view(&self) -> ActorView {
        ActorView {
            code: self.code@,
            state: self.state@,
            sequence: self.sequence,
            balance: self.balance,
            delegated_address: opt_address_view(self.delegated_address),
        }
    }
}

impl View for ActorState {
    type V = ActorView;

    open spec fn view(&self) -> ActorView {
        self.0@
    }
}

impl ActorStateV2 {
    pub fn new(code: Cid, state: Cid, balance: TokenAmount, sequence: u64) -> (a: ActorStateV2)
        ensures
            a == (ActorStateV2 { code, state, sequence, balance }),
    {
        ActorStateV2 { code, state, sequence, balance }
    }

    /// A copy of the record.
    pub fn duplicate(&self) -> (a: ActorStateV2)
        ensures
            a@ == self@,
    {
        ActorStateV2 {
            code: self.code.duplicate(),
            state: self.state.duplicate(),
            sequence: self.sequence,
            balance: self.balance,
        }
    }
}

impl ActorStateV3 {
    pub fn new(
        code: Cid,
        state: Cid,
        balance: TokenAmount,
        sequence: u64,
        delegated_address: Option<Address>,
    ) -> (a: ActorStateV3)
        ensures
            a == (ActorStateV3 { code, state, sequence, balance, delegated_address }),
    {
        ActorStateV3 { code, state, sequence, balance, delegated_address }
    }

    /// A copy of the record.
    pub fn duplicate(&self) -> (a: ActorStateV3)
        ensures
            a@ == self@,
    {
        let delegated_address = match &self.delegated_address {
            Some(a) => Some(a.duplicate()),
            None => None,
        };
        ActorStateV3 {
            code: self.code.duplicate(),
            state: self.state.duplicate(),
            sequence: self.sequence,
            balance: self.balance,
            delegated_address,
        }
    }
}

/// The record of the older generation in the shape that callers see: it has
/// no delegated address.
pub open spec fn raised(value: ActorStateV2) -> ActorState {
    ActorState(
        ActorStateV3 {
            code: value.code,
            state: value.state,
            sequence: value.sequence,
            balance: value.balance,
            delegated_address: None,
        },
    )
}

/// The record in the shape of the older generation: the delegated address
/// is left out.
pub open spec fn lowered(other: ActorState) -> ActorStateV2 {
    ActorStateV2 {
        code: other.0.code,
        state: other.0.state,
        sequence: other.0.sequence,
        balance: other.0.balance,
    }
}

impl From<ActorStateV3> for ActorState {
    fn from(value: ActorStateV3) -> (ret: ActorState) {
        ActorState(value)
    }
}

impl FromSpecImpl<ActorStateV3> for ActorState {
    open spec fn obeys_from_spec() -> bool {
        true
    }

    open spec fn from_spec(value: ActorStateV3) -> ActorState {
        ActorState(value)
    }
}

impl From<ActorStateV2> for ActorState {
    fn from(value: ActorStateV2) -> (ret: ActorState) {
        ActorState(
            ActorStateV3 {
                code: value.code,
                state: value.state,
                sequence: value.sequence,
                balance: value.balance,
                delegated_address: None,
            },
        )
    }
}

impl FromSpecImpl<ActorStateV2> for ActorState {
    open spec fn obeys_from_spec() -> bool {
        true
    }

    open spec fn from_spec(value: ActorStateV2) -> ActorState {
        raised(value)
    }
}

impl From<ActorState> for ActorStateV3 {
    fn from(other: ActorState) -> (ret: ActorStateV3) {
        other.0
    }
}

impl FromSpecImpl<ActorState> for ActorStateV3 {
    open spec fn obeys_from_spec() -> bool {
        true
    }

    open spec fn from_spec(other: ActorState) -> ActorStateV3 {
        other.0
    }
}

impl From<ActorState> for ActorStateV2 {
    /// The delegated address is dropped: the older generation has no place
    /// for it.
    fn from(other: ActorState) -> (ret: ActorStateV2) {
        ActorStateV2 {
            code: other.0.code,
            state: other.0.state,
            sequence: other.0.sequence,
            balance: other.0.balance,
        }
    }
}

impl FromSpecImpl<ActorState> for ActorStateV2 {
    open spec fn obeys_from_spec() -> bool {
        true
    }

    open spec fn from_spec(other: ActorState) -> ActorStateV2 {
        lowered(other)
    }
}

/// A record that went down to the older generation and came back is the
/// record it was, but for the delegated address, which is gone.
pub proof fn lemma_round_trip_drops_delegated(actor: ActorState)
    ensures
        raised(lowered(actor)) == ActorState(
            ActorStateV3 { delegated_address: None, ..actor.0 },
        ),
        raised(lowered(actor))@ == without_delegated(actor@),
        raised(lowered(actor))@.delegated_address is None,
{
}

/// A record that came up from the older generation says what it said, and
/// goes back down unchanged.
pub proof fn lemma_round_trip_exact(old_record: ActorStateV2)
    ensures
        lowered(raised(old_record)) == old_record,
        raised(old_record)@ == old_record@,
{
}

/// An address and the actor ID that it is bound to.
#[derive(Clone, Debug, PartialEq, Eq)]
pub struct Binding {
    pub address: Address,
    pub id: ActorID,
}

/// Whether some binding is for `addr`.
pub open spec fn is_bound(bindings: Seq<Binding>, addr: AddressView) -> bool {
    exists|i: int| 0 <= i < bindings.len() && (#[trigger] bindings[i]).address@ == addr
}

/// Whether binding `i` is the first for `addr`.
pub open spec fn is_first_binding(bindings: Seq<Binding>, addr: AddressView, i: int) -> bool {
    &&& 0 <= i < bindings.len()
    &&& bindings[i].address@ == addr
    &&& forall|j: int| 0 <= j < i ==> (#[trigger] bindings[j]).address@ != addr
}

/// The actor ID of `addr`: an ID address names its own, any other address
/// has that of its first binding, if it has one.
pub open spec fn resolve(bindings: Seq<Binding>, addr: AddressView) -> Option<ActorID> {
    if addr.protocol == Protocol::ID {
        Some(addr.number)
    } else if is_bound(bindings, addr) {
        Some(bindings[choose|i: int| is_first_binding(bindings, addr, i)].id)
    } else {
        None
    }
}

/// An address has one first binding.
pub proof fn lemma_first_binding_unique(bindings: Seq<Binding>, addr: AddressView, i: int, j: int)
    requires
        is_first_binding(bindings, addr, i),
        is_first_binding(bindings, addr, j),
    ensures
        i == j,
{
    if i < j {
        assert(bindings[i].address@ != addr);
    } else if j < i {
        assert(bindings[j].address@ != addr);
    }
}

/// A state tree of one generation, read into memory: the store it came
/// from, its root, the bindings of addresses to actor IDs, and the records
/// by actor ID. Records that were written since the root was computed are
/// pending.
pub struct Tree<S, A> {
    store: S,
    root: Cid,
    pending: bool,
    bindings: Vec<Binding>,
    actors: Table<A>,
}

/// The tree of the older generation.
pub type StateTreeV2<S> = Tree<S, ActorStateV2>;

/// The tree of the newest generation.
pub type StateTreeV3<S> = Tree<S, ActorStateV3>;

impl<S, A> Tree<S, A> {
    pub closed spec fn wf(&self) -> bool {
        self.actors.wf()
    }

    pub closed spec fn backing(&self) -> S {
        self.store
    }

    pub closed spec fn root(&self) -> Seq<u8> {
        self.root@
    }

    pub closed spec fn pending(&self) -> bool {
        self.pending
    }

    pub closed spec fn bindings(&self) -> Seq<Binding> {
        self.bindings@
    }

    pub closed spec fn actors(&self) -> Map<ActorID, A> {
        self.actors.map()
    }

    pub closed spec fn order(&self) -> Seq<ActorID> {
        self.actors.order()
    }

    /// The tree at `root` without bindings and records.
    pub fn new(store: S, root: Cid) -> (t: Tree<S, A>)
        ensures
            t.wf(),
            t.backing() == store,
            t.root() == root@,
            !t.pending(),
            t.bindings() == Seq::<Binding>::empty(),
            t.actors() == Map::<ActorID, A>::empty(),
            t.order() == Seq::<ActorID>::empty(),
    {
        Tree { store, root, pending: false, bindings: Vec::new(), actors: Table::new() }
    }

    /// Binds `address` to `id`. An earlier binding of the address stands.
    pub fn bind(&mut self, address: Address, id: ActorID)
        requires
            old(self).wf(),
        ensures
            final(self).wf(),
            final(self).bindings() == old(self).bindings().push(Binding { address, id }),
            final(self).actors() == old(self).actors(),
            final(self).order() == old(self).order(),
            final(self).backing() == old(self).backing(),
            final(self).root() == old(self).root(),
            final(self).pending(),
    {
        self.bindings.push(Binding { address, id });
        self.pending = true;
    }

    /// The store that the tree came from.
    pub fn store(&self) -> (s: &S)
        ensures
            *s == self.backing(),
    {
        &self.store
    }

    /// The actor ID of `addr`, if it has one.
    pub fn lookup_id(&self, addr: &Address) -> (id: Option<ActorID>)
        ensures
            id == resolve(self.bindings(), addr@),
    {
        if addr.protocol() == Protocol::ID {
            return Some(addr.number());
        }
        let mut i: usize = 0;
        while i < self.bindings.len()
            invariant
                addr@.protocol != Protocol::ID,
                i <= self.bindings@.len(),
                forall|j: int| 0 <= j < i ==> (#[trigger] self.bindings@[j]).address@ != addr@,
            decreases self.bindings@.len() - i,
        {
            if self.bindings[i].address.same(addr) {
                proof {
                    assert(is_first_binding(self.bindings@, addr@, i as int));
                    assert(is_bound(self.bindings@, addr@));
                    let k = choose|k: int| is_first_binding(self.bindings@, addr@, k);
                    lemma_first_binding_unique(self.bindings@, addr@, i as int, k);
                }
                return Some(self.bindings[i].id);
            }
            i = i + 1;
        }
        None
    }

    /// The record of actor `id`, if it has one.
    pub fn get_actor(&self, id: ActorID) -> (a: Option<&A>)
        requires
            self.wf(),
        ensures
            match a {
                Some(a) => self.actors().contains_key(id) && *a == self.actors()[id],
                None => !self.actors().contains_key(id),
            },
    {
        self.actors.get(id)
    }

    /// Writes the record of actor `id`.
    pub fn set_actor(&mut self, id: ActorID, actor: A)
        requires
            old(self).wf(),
        ensures
            final(self).wf(),
            final(self).actors() == old(self).actors().insert(id, actor),
            final(self).order() == if old(self).actors().contains_key(id) {
                old(self).order()
            } else {
                old(self).order().push(id)
            },
            final(self).bindings() == old(self).bindings(),
            final(self).backing() == old(self).backing(),
            final(self).root() == old(self).root(),
            final(self).pending(),
    {
        self.actors.set(id, actor);
        self.pending = true;
    }

    /// How many records the tree holds.
    pub fn len(&self) -> (n: usize)
        requires
            self.wf(),
        ensures
            n == self.order().len(),
    {
        self.actors.len()
    }

    /// The actor ID at place `i` of the tree's order.
    pub fn id_at(&self, i: usize) -> (id: ActorID)
        requires
            self.wf(),
            i < self.order().len(),
        ensures
            id == self.order()[i as int],
    {
        self.actors.id_at(i)
    }

    /// The record at place `i` of the tree's order.
    pub fn record_at(&self, i: usize) -> (a: &A)
        requires
            self.wf(),
            i < self.order().len(),
        ensures
            self.actors().contains_key(self.order()[i as int]),
            *a == self.actors()[self.order()[i as int]],
    {
        self.actors.record_at(i)
    }

    /// Whether something was written since the root was computed.
    pub fn is_pending(&self) -> (p: bool)
        ensures
            p == self.pending(),
    {
        self.pending
    }

    /// A copy of the root that the tree had when it was opened or last
    /// flushed.
    pub fn root_cid(&self) -> (c: Cid)
        ensures
            c@ == self.root(),
    {
        self.root.duplicate()
    }

    /// Takes `root` as the root of the tree as it now is: nothing is
    /// pending after it.
    pub fn set_root(&mut self, root: Cid)
        requires
            old(self).wf(),
        ensures
            final(self).wf(),
            final(self).root() == root@,
            !final(self).pending(),
            final(self).actors() == old(self).actors(),
            final(self).order() == old(self).order(),
            final(self).bindings() == old(self).bindings(),
            final(self).backing() == old(self).backing(),
    {
        self.root = root;
        self.pending = false;
    }
}

/// The view of an optional record.
pub open spec fn opt_actor_view(a: Option<ActorState>) -> Option<ActorView> {
    match a {
        Some(a) => Some(a@),
        None => None,
    }
}

/// The ID address of actor `id`.
pub open spec fn id_address(id: ActorID) -> AddressView {
    AddressView { protocol: Protocol::ID, number: id, payload: Seq::empty() }
}

/// A state tree of either generation behind one interface.
pub enum StateTree<S> {
    V2(StateTreeV2<S>),
    V3(StateTreeV3<S>),
}

impl<S> StateTree<S> {
    pub open spec fn wf(&self) -> bool {
        match self {
            StateTree::V2(st) => st.wf(),
            StateTree::V3(st) => st.wf(),
        }
    }

    /// The bindings of addresses to actor IDs.
    pub open spec fn bindings(&self) -> Seq<Binding> {
        match self {
            StateTree::V2(st) => st.bindings(),
            StateTree::V3(st) => st.bindings(),
        }
    }

    /// What the tree says of each actor that it holds.
    pub open spec fn actors(&self) -> Map<ActorID, ActorView> {
        match self {
            StateTree::V2(st) => st.actors().map_values(|a: ActorStateV2| a@),
            StateTree::V3(st) => st.actors().map_values(|a: ActorStateV3| a@),
        }
    }

    /// The actor IDs in the order in which the tree is walked.
    pub open spec fn order(&self) -> Seq<ActorID> {
        match self {
            StateTree::V2(st) => st.order(),
            StateTree::V3(st) => st.order(),
        }
    }

    /// The root that the tree had when it was opened or last flushed.
    pub open spec fn root(&self) -> Seq<u8> {
        match self {
            StateTree::V2(st) => st.root(),
            StateTree::V3(st) => st.root(),
        }
    }

    /// Whether something was written since then.
    pub open spec fn pending(&self) -> bool {
        match self {
            StateTree::V2(st) => st.pending(),
            StateTree::V3(st) => st.pending(),
        }
    }

    /// The store that the tree came from.
    pub open spec fn backing(&self) -> S {
        match self {
            StateTree::V2(st) => st.backing(),
            StateTree::V3(st) => st.backing(),
        }
    }

    /// What the tree keeps of a record: the older generation has no place
    /// for the delegated address.
    pub open spec fn kept(&self, v: ActorView) -> ActorView {
        match self {
            StateTree::V2(_) => without_delegated(v),
            StateTree::V3(_) => v,
        }
    }

    /// What the tree says of the actor at `addr`: nothing where the address
    /// has no actor ID, or the ID no record.
    pub open spec fn actor_of(&self, addr: AddressView) -> Option<ActorView> {
        match resolve(self.bindings(), addr) {
            Some(id) => if self.actors().contains_key(id) {
                Some(self.actors()[id])
            } else {
                None
            },
            None => None,
        }
    }

    /// Chooses between the two readings of one root: that of the newest
    /// generation where the root can be read so, else that of the older
    /// one. `v3` and `v2` are what the attempt to read the root under each
    /// generation gave.
    pub fn from_readings(v3: Option<StateTreeV3<S>>, v2: Option<StateTreeV2<S>>) -> (r: Result<
        StateTree<S>,
        Error,
    >)
        ensures
            match (v3, v2) {
                (Some(st), _) => r == Ok::<StateTree<S>, Error>(StateTree::V3(st)),
                (None, Some(st)) => r == Ok::<StateTree<S>, Error>(StateTree::V2(st)),
                (None, None) => r == Err::<StateTree<S>, Error>(
                    Error::UnsupportedStateTreeVersion,
                ),
            },
    {
        match v3 {
            Some(st) => Ok(StateTree::V3(st)),
            None => match v2 {
                Some(st) => Ok(StateTree::V2(st)),
                None => Err(Error::UnsupportedStateTreeVersion),
            },
        }
    }

    /// Opens the tree at the root `c` in `store`. `read_v3` and `read_v2`
    /// read a root under the newest and under the older generation, and
    /// give nothing where it cannot be read so. The newest is tried first;
    /// the older is tried only where the newest gave nothing.
    pub fn new_from_root<
        F3: FnOnce(&S, &Cid) -> Option<StateTreeV3<S>>,
        F2: FnOnce(&S, &Cid) -> Option<StateTreeV2<S>>,
    >(store: &S, c: &Cid, read_v3: F3, read_v2: F2) -> (r: Result<StateTree<S>, Error>)
        requires
            call_requires(read_v3, (store, c)),
            call_ensures(read_v3, (store, c), None::<StateTreeV3<S>>) ==> call_requires(
                read_v2,
                (store, c),
            ),
        ensures
            match r {
                Ok(StateTree::V3(st)) => call_ensures(read_v3, (store, c), Some(st)),
                Ok(StateTree::V2(st)) => call_ensures(
                    read_v3,
                    (store, c),
                    None::<StateTreeV3<S>>,
                ) && call_ensures(read_v2, (store, c), Some(st)),
                Err(e) => e == Error::UnsupportedStateTreeVersion && call_ensures(
                    read_v3,
                    (store, c),
                    None::<StateTreeV3<S>>,
                ) && call_ensures(read_v2, (store, c), None::<StateTreeV2<S>>),
            },
    {
        match read_v3(store, c) {
            Some(st) => StateTree::from_readings(Some(st), None),
            None => {
                let older = read_v2(store, c);
                StateTree::from_readings(None, older)
            },
        }
    }

    /// The record of the actor at `addr`. That there is none is no error.
    pub fn get_actor(&self, addr: &Address) -> (r: Result<Option<ActorState>, Error>)
        requires
            self.wf(),
        ensures
            r is Ok,
            opt_actor_view(r.unwrap()) == self.actor_of(addr@),
    {
        match self {
            StateTree::V2(st) => match st.lookup_id(addr) {
                Some(id) => match st.get_actor(id) {
                    Some(a) => Ok(Some(ActorState::from(a.duplicate()))),
                    None => Ok(None),
                },
                None => Ok(None),
            },
            StateTree::V3(st) => {
                let id = st.lookup_id(addr);
                if let Some(id) = id {
                    match st.get_actor(id) {
                        Some(a) => Ok(Some(ActorState::from(a.duplicate()))),
                        None => Ok(None),
                    }
                } else {
                    Ok(None)
                }
            },
        }
    }

    /// The store that the tree came from.
    pub fn store(&self) -> (s: &S)
        ensures
            *s == self.backing(),
    {
        match self {
            StateTree::V2(st) => st.store(),
            StateTree::V3(st) => st.store(),
        }
    }

    /// The actor ID of any address.
    pub fn lookup_id(&self, addr: &Address) -> (r: Result<Option<ActorID>, Error>)
        ensures
            r == Ok::<Option<ActorID>, Error>(resolve(self.bindings(), addr@)),
    {
        match self {
            StateTree::V2(st) => Ok(st.lookup_id(addr)),
            StateTree::V3(st) => Ok(st.lookup_id(addr)),
        }
    }

    /// Whether `f` was called for the actor at place `i` and failed with
    /// `failure`, or went well where that is `None`.
    pub open spec fn visited<F: Fn(Address, &ActorState) -> Result<(), Error>>(
        &self,
        f: F,
        i: int,
        failure: Option<Error>,
    ) -> bool {
        exists|a: Address, s: ActorState, res: Result<(), Error>|
            a@ == id_address(self.order()[i]) && s@ == self.actors()[self.order()[i]]
                && #[trigger] call_ensures(f, (a, &s), res) && match failure {
                Some(e) => res == Err::<(), Error>(e),
                None => res is Ok,
            }
    }

    /// Calls `f` for each actor with its ID address and its record, in the
    /// tree's order, until `f` fails; that failure is handed on.
    pub fn for_each<F: Fn(Address, &ActorState) -> Result<(), Error>>(&self, f: F) -> (r: Result<
        (),
        Error,
    >)
        requires
            self.wf(),
            forall|a: Address, s: ActorState| call_requires(f, (a, &s)),
        ensures
            match r {
                Ok(_) => forall|i: int|
                    0 <= i < self.order().len() ==> self.visited(f, i, None::<Error>),
                Err(e) => exists|i: int|
                    0 <= i < self.order().len() && self.visited(f, i, Some(e)) && forall|j: int|
                        0 <= j < i ==> self.visited(f, j, None::<Error>),
            },
    {
        let n = match self {
            StateTree::V2(st) => st.len(),
            StateTree::V3(st) => st.len(),
        };
        let mut i: usize = 0;
        while i < n
            invariant
                self.wf(),
                n == self.order().len(),
                i <= n,
                forall|a: Address, s: ActorState| call_requires(f, (a, &s)),
                forall|j: int| 0 <= j < i ==> self.visited(f, j, None::<Error>),
            decreases n - i,
        {
            let (address, state) = match self {
                StateTree::V2(st) => (
                    Address::new_id(st.id_at(i)),
                    ActorState::from(st.record_at(i).duplicate()),
                ),
                StateTree::V3(st) => (
                    Address::new_id(st.id_at(i)),
                    ActorState::from(st.record_at(i).duplicate()),
                ),
            };
            let res = f(address, &state);
            match res {
                Ok(_) => {
                    assert(self.visited(f, i as int, None::<Error>));
                },
                Err(e) => {
                    assert(self.visited(f, i as int, Some(e)));
                    return Err(e);
                },
            }
            i = i + 1;
        }
        Ok(())
    }

    /// Has `persist` write the tree where something is pending, and takes
    /// the root that it computed. With nothing pending the root is handed
    /// back as it is and `persist` is not called: a second flush changes
    /// nothing.
    pub fn flush<F: FnOnce(&StateTree<S>) -> Result<Cid, Error>>(&mut self, persist: F) -> (r:
        Result<Cid, Error>)
        requires
            old(self).wf(),
            old(self).pending() ==> call_requires(persist, (&*old(self),)),
        ensures
            final(self).wf(),
            final(self).actors() == old(self).actors(),
            final(self).order() == old(self).order(),
            final(self).bindings() == old(self).bindings(),
            final(self).backing() == old(self).backing(),
            (*final(self) is V2) == (*old(self) is V2),
            !old(self).pending() ==> r is Ok && r.unwrap()@ == old(self).root()
                && *final(self) == *old(self),
            old(self).pending() ==> match r {
                Ok(c) => !final(self).pending() && final(self).root() == c@ && exists|w: Cid|
                    w@ == c@ && call_ensures(persist, (&*old(self),), Ok::<Cid, Error>(w)),
                Err(e) => call_ensures(persist, (&*old(self),), Err::<Cid, Error>(e))
                    && *final(self) == *old(self),
            },
    {
        let pending = match &*self {
            StateTree::V2(st) => st.is_pending(),
            StateTree::V3(st) => st.is_pending(),
        };
        if !pending {
            return Ok(
                match &*self {
                    StateTree::V2(st) => st.root_cid(),
                    StateTree::V3(st) => st.root_cid(),
                },
            );
        }
        match persist(&*self) {
            Ok(written) => {
                let out = written.duplicate();
                match self {
                    StateTree::V2(st) => st.set_root(written),
                    StateTree::V3(st) => st.set_root(written),
                }
                Ok(out)
            },
            Err(e) => Err(e),
        }
    }

    /// Writes the record of the actor at `addr`. An address without an
    /// actor ID is refused, and nothing is written.
    pub fn set_actor(&mut self, addr: &Address, actor: ActorState) -> (r: Result<(), Error>)
        requires
            old(self).wf(),
        ensures
            final(self).wf(),
            final(self).bindings() == old(self).bindings(),
            final(self).backing() == old(self).backing(),
            final(self).root() == old(self).root(),
            (*final(self) is V2) == (*old(self) is V2),
            match resolve(old(self).bindings(), addr@) {
                Some(id) => r is Ok && final(self).actors() == old(self).actors().insert(
                    id,
                    old(self).kept(actor@),
                ) && final(self).pending() && final(self).order() == if old(
                    self,
                ).actors().contains_key(id) {
                    old(self).order()
                } else {
                    old(self).order().push(id)
                },
                None => r == Err::<(), Error>(Error::UnresolvedActorID) && final(self).actors()
                    == old(self).actors() && final(self).order() == old(self).order()
                    && final(self).pending() == old(self).pending(),
            },
    {
        match self {
            StateTree::V2(st) => match st.lookup_id(addr) {
                Some(id) => {
                    let ghost before = st.actors();
                    let record = ActorStateV2::from(actor);
                    st.set_actor(id, record);
                    assert(st.actors().map_values(|a: ActorStateV2| a@) =~= before.map_values(
                        |a: ActorStateV2| a@,
                    ).insert(id, record@));
                    Ok(())
                },
                None => Err(Error::UnresolvedActorID),
            },
            StateTree::V3(st) => match st.lookup_id(addr) {
                Some(id) => {
                    let ghost before = st.actors();
                    let record = ActorStateV3::from(actor);
                    st.set_actor(id, record);
                    assert(st.actors().map_values(|a: ActorStateV3| a@) =~= before.map_values(
                        |a: ActorStateV3| a@,
                    ).insert(id, record@));
                    Ok(())
                },
                None => Err(Error::UnresolvedActorID),
            },
        }
    }
}

/// After a record was written under an address, the tree says of that
/// address what was written, as far as its generation keeps it.
pub proof fn lemma_get_after_set<S>(
    before: StateTree<S>,
    after: StateTree<S>,
    addr: AddressView,
    id: ActorID,
    written: ActorView,
)
    requires
        resolve(before.bindings(), addr) == Some(id),
        after.bindings() == before.bindings(),
        after.actors() == before.actors().insert(id, before.kept(written)),
    ensures
        after.actor_of(addr) == Some(before.kept(written)),
{
}

} // verus!
