//! Randomness drawn from the ticket chain and from the beacon.

use crate::error::Error;
use crate::primitives::Cid;
use crate::hashing::{blake2b_256, blake2b_256_digest, i64_be_bytes, write_i64_be};
use vstd::prelude::*;

verus! {

/// The bytes that are hashed for a draw: the tag, the digest of the base,
/// the round, then the entropy.
pub open spec fn randomness_message(
    base_digest: Seq<u8>,
    pers: i64,
    round: i64,
    entropy: Seq<u8>,
) -> Seq<u8> {
    i64_be_bytes(pers) + base_digest + i64_be_bytes(round) + entropy
}

/// The randomness that `base`, tag, round and entropy determine.
pub open spec fn drawn(base: Seq<u8>, pers: i64, round: i64, entropy: Seq<u8>) -> Seq<u8> {
    blake2b_256_digest(randomness_message(blake2b_256_digest(base), pers, round, entropy))
}

/// Lays out the message of a draw from the digest of its base.
pub fn randomness_message_bytes(
    base_digest: &[u8; 32],
    pers: i64,
    round: i64,
    entropy: &[u8],
) -> (msg: Vec<u8>)
    ensures
        msg@ == randomness_message(base_digest@, pers, round, entropy@),
{
    let tag = write_i64_be(pers);
    let height = write_i64_be(round);
    let mut msg: Vec<u8> = Vec::new();
    let mut i: usize = 0;
    while i < 8
        invariant
            i <= 8,
            msg@ == tag@.subrange(0, i as int),
        decreases 8 - i,
    {
        msg.push(tag[i]);
        i = i + 1;
        assert(msg@ =~= tag@.subrange(0, i as int));
    }
    i = 0;
    while i < 32
        invariant
            i <= 32,
            msg@ == tag@ + base_digest@.subrange(0, i as int),
        decreases 32 - i,
    {
        msg.push(base_digest[i]);
        i = i + 1;
        assert(msg@ =~= tag@ + base_digest@.subrange(0, i as int));
    }
    i = 0;
    while i < 8
        invariant
            i <= 8,
            msg@ == tag@ + base_digest@ + height@.subrange(0, i as int),
        decreases 8 - i,
    {
        msg.push(height[i]);
        i = i + 1;
        assert(msg@ =~= tag@ + base_digest@ + height@.subrange(0, i as int));
    }
    i = 0;
    while i < entropy.len()
        invariant
            i <= entropy@.len(),
            msg@ == tag@ + base_digest@ + height@ + entropy@.subrange(0, i as int),
        decreases entropy@.len() - i,
    {
        msg.push(entropy[i]);
        i = i + 1;
        assert(msg@ =~= tag@ + base_digest@ + height@ + entropy@.subrange(0, i as int));
    }
    assert(msg@ =~= tag@ + base_digest@ + height@ + entropy@);
    msg
}

/// Computes 32 bytes of randomness from a base, a domain separation tag, a
/// round and entropy. It always succeeds.
pub fn draw_randomness(rbase: &[u8], pers: i64, round: i64, entropy: &[u8]) -> (r: Result<
    [u8; 32],
    Error,
>)
    ensures
        r is Ok,
        r.unwrap()@ == drawn(rbase@, pers, round, entropy@),
{
    let vrf_digest = blake2b_256(rbase);
    let msg = randomness_message_bytes(&vrf_digest, pers, round, entropy);
    Ok(blake2b_256(msg.as_slice()))
}

/// How many tipsets the search for a beacon entry looks into before it
/// gives up.
pub const MAX_WALK: u8 = 20;

/// The key of a tipset: the identifiers of its blocks.
#[derive(Clone, Debug, PartialEq, Eq)]
pub struct TipsetKeys {
    pub cids: Vec<Cid>,
}

/// A round of the beacon and the randomness published for it.
#[derive(Clone, Debug, PartialEq, Eq)]
pub struct BeaconEntry {
    pub round: u64,
    pub data: Vec<u8>,
}

impl BeaconEntry {
    pub fn new(round: u64, data: Vec<u8>) -> (e: BeaconEntry)
        ensures
            e.round == round,
            e.data == data,
    {
        BeaconEntry { round, data }
    }

    pub fn round(&self) -> (r: u64)
        ensures
            r == self.round,
    {
        self.round
    }

    pub fn data(&self) -> (d: &Vec<u8>)
        ensures
            *d == self.data,
    {
        &self.data
    }
}

/// What a derivation reads of a block: its beacon entries.
#[derive(Clone, Debug, PartialEq, Eq)]
pub struct Block {
    pub beacon_entries: Vec<BeaconEntry>,
}

/// What a derivation reads of a tipset: its key, its epoch, the key of its
/// parents, the proof of the least ticket among its blocks if there is one,
/// and its blocks in their order. A tipset of the chain has a block.
#[derive(Clone, Debug, PartialEq, Eq)]
pub struct Tipset {
    pub key: TipsetKeys,
    pub epoch: i64,
    pub parents: TipsetKeys,
    pub min_ticket: Option<Vec<u8>>,
    pub blocks: Vec<Block>,
}

/// The beacon entries that a search looks into: those of the first block,
/// and of no other.
pub open spec fn searched_entries(ts: Tipset) -> Seq<BeaconEntry>
    recommends
        ts.blocks@.len() > 0,
{
    ts.blocks@[0].beacon_entries@
}

/// What a derivation is to produce.
#[derive(Clone, Copy, Debug, PartialEq, Eq, Structural)]
pub enum Goal {
    /// Randomness from the ticket of the tipset at the round.
    ChainRandomness,
    /// Randomness from the latest beacon entry at the round.
    BeaconRandomness,
    /// Randomness from the beacon entry of exactly the round's beacon round.
    ExactBeaconRandomness,
    /// The beacon entry of exactly the epoch's beacon round.
    BeaconEntry,
    /// The tipset that randomness for the round is drawn from.
    RandomnessTipset,
}

/// The tag, round and entropy of a draw. Where the goal is no randomness,
/// only the round counts.
#[derive(Clone, Debug, PartialEq, Eq)]
pub struct Draw {
    pub pers: i64,
    pub round: i64,
    pub entropy: Vec<u8>,
}

/// A question to the chain history or the beacon schedule.
#[derive(Clone, Debug, PartialEq, Eq)]
pub enum Lookup {
    /// The tipset with this key.
    TipsetFromKeys(TipsetKeys),
    /// The tipset at `height` on the chain that ends in `from`, or its
    /// neighbour where that height is empty, as `lookback` says.
    TipsetByHeight { height: i64, from: Tipset, lookback: bool },
    /// The latest beacon entry at this tipset.
    LatestBeaconEntry(Tipset),
    /// The greatest beacon round of this epoch under the network version
    /// that is active at it.
    MaxBeaconRound(i64),
}

/// The answer to a question.
#[derive(Clone, Debug, PartialEq, Eq)]
pub enum Reply {
    Tipset(Tipset),
    Entry(BeaconEntry),
    Round(u64),
    /// The collaborator failed, with its message.
    Failed(String),
}

/// What a finished derivation hands back.
#[derive(Clone, Debug, PartialEq, Eq)]
pub enum Outcome {
    Randomness([u8; 32]),
    Entry(BeaconEntry),
    Tipset(Tipset),
}

/// A derivation that waits for the answer to its last question.
#[derive(Clone, Debug, PartialEq, Eq)]
pub enum Pending {
    /// Waits for the tipset that the draw is relative to.
    Resolving { goal: Goal, draw: Draw, lookback: bool },
    /// Waits for the tipset at the search height.
    Searching { goal: Goal, draw: Draw },
    /// Waits for the latest beacon entry.
    LatestEntry { draw: Draw },
    /// Holds the first tipset to look into and waits for the wanted round.
    MaxRound { goal: Goal, draw: Draw, tipset: Tipset },
    /// Has looked into `examined` tipsets and waits for the next parent.
    Walking { goal: Goal, draw: Draw, target: u64, examined: u8 },
}

/// Where a derivation stands after a step.
#[derive(Clone, Debug, PartialEq, Eq)]
pub enum Progress {
    /// The caller answers the question and advances the derivation with it.
    Ask(Lookup, Pending),
    Done(Outcome),
    Fail(Error),
}

/// The height at which the tipset for `round` is searched.
pub open spec fn search_height(round: i64) -> i64 {
    if round < 0 {
        0
    } else {
        round
    }
}

/// The first step of every derivation: its tipset is asked for.
pub open spec fn begin(goal: Goal, blocks: TipsetKeys, draw: Draw, lookback: bool) -> Progress {
    Progress::Ask(Lookup::TipsetFromKeys(blocks), Pending::Resolving { goal, draw, lookback })
}

/// Whether `out` is randomness drawn from `base` for `draw`.
pub open spec fn is_drawn(out: Progress, base: Seq<u8>, draw: Draw) -> bool {
    out matches Progress::Done(Outcome::Randomness(r)) && r@ == drawn(
        base,
        draw.pers,
        draw.round,
        draw.entropy@,
    )
}

/// Whether some entry has the round `target`.
pub open spec fn has_round(entries: Seq<BeaconEntry>, target: u64) -> bool {
    exists|i: int| 0 <= i < entries.len() && #[trigger] entries[i].round == target
}

/// Whether entry `i` is the first with the round `target`.
pub open spec fn is_first_match(entries: Seq<BeaconEntry>, target: u64, i: int) -> bool {
    &&& 0 <= i < entries.len()
    &&& entries[i].round == target
    &&& forall|j: int| 0 <= j < i ==> #[trigger] entries[j].round != target
}

/// Whether `out` is the step that looking into `ts` gives, after `examined`
/// tipsets were looked into without a match. The search asks for the
/// parents only while it may still look into them: the miss that fills the
/// bound ends it. A tipset without a block is no tipset of the chain.
pub open spec fn examined_to(
    goal: Goal,
    draw: Draw,
    target: u64,
    examined: u8,
    ts: Tipset,
    out: Progress,
) -> bool {
    if examined >= MAX_WALK {
        out == Progress::Fail(Error::BeaconNotFound)
    } else if ts.blocks@.len() == 0 {
        out == Progress::Fail(Error::UnexpectedReply)
    } else if has_round(searched_entries(ts), target) {
        exists|i: int|
            is_first_match(searched_entries(ts), target, i) && if goal == Goal::BeaconEntry {
                out == Progress::Done(Outcome::Entry(searched_entries(ts)[i]))
            } else {
                is_drawn(out, searched_entries(ts)[i].data@, draw)
            }
    } else if examined + 1 >= MAX_WALK {
        out == Progress::Fail(Error::BeaconNotFound)
    } else {
        out == Progress::Ask(
            Lookup::TipsetFromKeys(ts.parents),
            Pending::Walking { goal, draw, target, examined: (examined + 1) as u8 },
        )
    }
}

/// Whether `out` is the step that a collaborator's failure, or an answer of
/// the wrong kind, gives.
pub open spec fn refused(reply: Reply, out: Progress) -> bool {
    match reply {
        Reply::Failed(msg) => out == Progress::Fail(Error::Store(msg)),
        _ => out == Progress::Fail(Error::UnexpectedReply),
    }
}

/// Whether `out` is the step of the derivation `p` on the answer `reply`.
pub open spec fn step(p: Pending, reply: Reply, out: Progress) -> bool {
    match (p, reply) {
        (Pending::Resolving { goal, draw, lookback }, Reply::Tipset(ts)) => {
            if draw.round > ts.epoch {
                out == Progress::Fail(Error::FutureRandomness)
            } else {
                out == Progress::Ask(
                    Lookup::TipsetByHeight { height: search_height(draw.round), from: ts, lookback },
                    Pending::Searching { goal, draw },
                )
            }
        },
        (Pending::Searching { goal, draw }, Reply::Tipset(ts)) => match goal {
            Goal::ChainRandomness => match ts.min_ticket {
                Some(proof_bytes) => is_drawn(out, proof_bytes@, draw),
                None => out == Progress::Fail(Error::MissingTicket),
            },
            Goal::BeaconRandomness => out == Progress::Ask(
                Lookup::LatestBeaconEntry(ts),
                Pending::LatestEntry { draw },
            ),
            Goal::RandomnessTipset => out == Progress::Done(Outcome::Tipset(ts)),
            _ => out == Progress::Ask(
                Lookup::MaxBeaconRound(draw.round),
                Pending::MaxRound { goal, draw, tipset: ts },
            ),
        },
        (Pending::LatestEntry { draw }, Reply::Entry(e)) => is_drawn(out, e.data@, draw),
        (Pending::MaxRound { goal, draw, tipset }, Reply::Round(target)) => examined_to(
            goal,
            draw,
            target,
            0,
            tipset,
            out,
        ),
        (Pending::Walking { goal, draw, target, examined }, Reply::Tipset(ts)) => examined_to(
            goal,
            draw,
            target,
            examined,
            ts,
            out,
        ),
        (_, reply) => refused(reply, out),
    }
}

/// The index of the first entry with the round `target`, if there is one.
pub fn find_round(entries: &Vec<BeaconEntry>, target: u64) -> (found: Option<usize>)
    ensures
        match found {
            Some(i) => is_first_match(entries@, target, i as int),
            None => !has_round(entries@, target),
        },
{
    let mut i: usize = 0;
    while i < entries.len()
        invariant
            i <= entries@.len(),
            forall|j: int| 0 <= j < i ==> #[trigger] entries@[j].round != target,
        decreases entries@.len() - i,
    {
        if entries[i].round == target {
            return Some(i);
        }
        i = i + 1;
    }
    None
}

/// Randomness drawn from `base` for `draw`, as the end of a derivation.
fn finish_draw(base: &Vec<u8>, draw: Draw) -> (out: Progress)
    ensures
        is_drawn(out, base@, draw),
{
    match draw_randomness(base.as_slice(), draw.pers, draw.round, draw.entropy.as_slice()) {
        Ok(r) => Progress::Done(Outcome::Randomness(r)),
        Err(e) => Progress::Fail(e),
    }
}

/// Looks into the first block of `ts` for the entry of round `target`,
/// after `examined` tipsets were looked into. Past the bound the tipset is
/// not looked into, and at the bound no parents are asked for.
pub fn examine(goal: Goal, draw: Draw, target: u64, examined: u8, ts: Tipset) -> (out: Progress)
    ensures
        examined_to(goal, draw, target, examined, ts, out),
{
    if examined >= MAX_WALK {
        return Progress::Fail(Error::BeaconNotFound);
    }
    if ts.blocks.len() == 0 {
        return Progress::Fail(Error::UnexpectedReply);
    }
    match find_round(&ts.blocks[0].beacon_entries, target) {
        Some(i) => {
            let mut blocks = ts.blocks;
            let first = blocks.remove(0);
            let mut entries = first.beacon_entries;
            let entry = entries.remove(i);
            assert(is_first_match(searched_entries(ts), target, i as int));
            match goal {
                Goal::BeaconEntry => Progress::Done(Outcome::Entry(entry)),
                _ => finish_draw(&entry.data, draw),
            }
        },
        None => if examined + 1 >= MAX_WALK {
            Progress::Fail(Error::BeaconNotFound)
        } else {
            Progress::Ask(
                Lookup::TipsetFromKeys(ts.parents),
                Pending::Walking { goal, draw, target, examined: examined + 1 },
            )
        },
    }
}

/// The step on a failure or on an answer of the wrong kind.
fn refuse(reply: Reply) -> (out: Progress)
    ensures
        refused(reply, out),
{
    match reply {
        Reply::Failed(msg) => Progress::Fail(Error::Store(msg)),
        _ => Progress::Fail(Error::UnexpectedReply),
    }
}

impl Pending {
    /// Takes the answer to the question that was asked last and says how
    /// the derivation goes on: with another question, with its result, or
    /// with the failure that ends it.
    pub fn advance(self, reply: Reply) -> (out: Progress)
        ensures
            step(self, reply, out),
    {
        match (self, reply) {
            (Pending::Resolving { goal, draw, lookback }, Reply::Tipset(ts)) => {
                if draw.round > ts.epoch {
                    Progress::Fail(Error::FutureRandomness)
                } else {
                    let height: i64 = if draw.round < 0 {
                        0
                    } else {
                        draw.round
                    };
                    Progress::Ask(
                        Lookup::TipsetByHeight { height, from: ts, lookback },
                        Pending::Searching { goal, draw },
                    )
                }
            },
            (Pending::Searching { goal, draw }, Reply::Tipset(ts)) => match goal {
                Goal::ChainRandomness => match ts.min_ticket {
                    Some(proof_bytes) => finish_draw(&proof_bytes, draw),
                    None => Progress::Fail(Error::MissingTicket),
                },
                Goal::BeaconRandomness => Progress::Ask(
                    Lookup::LatestBeaconEntry(ts),
                    Pending::LatestEntry { draw },
                ),
                Goal::RandomnessTipset => Progress::Done(Outcome::Tipset(ts)),
                _ => Progress::Ask(
                    Lookup::MaxBeaconRound(draw.round),
                    Pending::MaxRound { goal, draw, tipset: ts },
                ),
            },
            (Pending::LatestEntry { draw }, Reply::Entry(e)) => finish_draw(&e.data, draw),
            (Pending::MaxRound { goal, draw, tipset }, Reply::Round(target)) => examine(
                goal,
                draw,
                target,
                0,
                tipset,
            ),
            (Pending::Walking { goal, draw, target, examined }, Reply::Tipset(ts)) => examine(
                goal,
                draw,
                target,
                examined,
                ts,
            ),
            (_, reply) => refuse(reply),
        }
    }
}

/// The first step of a draw from the ticket chain.
pub open spec fn chain_start(
    blocks: TipsetKeys,
    pers: i64,
    round: i64,
    entropy: Vec<u8>,
    lookback: bool,
) -> Progress {
    begin(Goal::ChainRandomness, blocks, Draw { pers, round, entropy }, lookback)
}

/// The first step of a draw from the latest beacon entry.
pub open spec fn beacon_start(
    blocks: TipsetKeys,
    pers: i64,
    round: i64,
    entropy: Vec<u8>,
    lookback: bool,
) -> Progress {
    begin(Goal::BeaconRandomness, blocks, Draw { pers, round, entropy }, lookback)
}

/// The first step of a draw from the beacon under the later protocol: from
/// the entry of exactly the round's beacon round, but for a negative round.
pub open spec fn beacon_v3_start(
    blocks: TipsetKeys,
    pers: i64,
    round: i64,
    entropy: Vec<u8>,
) -> Progress {
    begin(
        if round < 0 {
            Goal::BeaconRandomness
        } else {
            Goal::ExactBeaconRandomness
        },
        blocks,
        Draw { pers, round, entropy },
        false,
    )
}

/// Whether `out` is the first step of a derivation towards `goal` that
/// draws nothing: its tag is zero and its entropy empty.
pub open spec fn begins_plain(
    out: Progress,
    goal: Goal,
    blocks: TipsetKeys,
    round: i64,
    lookback: bool,
) -> bool {
    exists|draw: Draw|
        #![trigger begin(goal, blocks, draw, lookback)]
        out == begin(goal, blocks, draw, lookback) && draw.pers == 0 && draw.round == round
            && draw.entropy@.len() == 0
}

/// Derives randomness relative to one tipset. Each method starts a
/// derivation and hands back its first step; the caller answers the
/// questions from the chain history and the beacon schedule, and advances
/// the derivation until it is done or has failed.
#[derive(Clone, Debug, PartialEq, Eq)]
pub struct ChainRand {
    blks: TipsetKeys,
}

impl ChainRand {
    /// The tipset that this instance draws from.
    pub closed spec fn scope(&self) -> TipsetKeys {
        self.blks
    }

    pub fn new(blks: TipsetKeys) -> (cr: ChainRand)
        ensures
            cr.scope() == blks,
    {
        ChainRand { blks }
    }

    /// Randomness for `round` from the ticket chain that ends in `blocks`.
    pub fn get_chain_randomness(
        &self,
        blocks: TipsetKeys,
        pers: i64,
        round: i64,
        entropy: Vec<u8>,
        lookback: bool,
    ) -> (out: Progress)
        ensures
            out == chain_start(blocks, pers, round, entropy, lookback),
    {
        Progress::Ask(
            Lookup::TipsetFromKeys(blocks),
            Pending::Resolving {
                goal: Goal::ChainRandomness,
                draw: Draw { pers, round, entropy },
                lookback,
            },
        )
    }

    /// Ticket randomness without look-back.
    pub fn get_chain_randomness_v2(
        &self,
        blocks: TipsetKeys,
        pers: i64,
        round: i64,
        entropy: Vec<u8>,
    ) -> (out: Progress)
        ensures
            out == chain_start(blocks, pers, round, entropy, false),
    {
        self.get_chain_randomness(blocks, pers, round, entropy, false)
    }

    /// Beacon randomness of the earlier protocol: from the latest entry,
    /// without look-back.
    pub fn get_beacon_randomness_v2(
        &self,
        blocks: TipsetKeys,
        pers: i64,
        round: i64,
        entropy: Vec<u8>,
    ) -> (out: Progress)
        ensures
            out == beacon_start(blocks, pers, round, entropy, false),
    {
        self.get_beacon_randomness(blocks, pers, round, entropy, false)
    }

    /// Beacon randomness of the later protocol: from the entry of exactly
    /// the round's beacon round. A negative round is served as under the
    /// earlier protocol.
    pub fn get_beacon_randomness_v3(
        &self,
        blocks: TipsetKeys,
        pers: i64,
        round: i64,
        entropy: Vec<u8>,
    ) -> (out: Progress)
        ensures
            out == beacon_v3_start(blocks, pers, round, entropy),
    {
        if round < 0 {
            return self.get_beacon_randomness_v2(blocks, pers, round, entropy);
        }
        Progress::Ask(
            Lookup::TipsetFromKeys(blocks),
            Pending::Resolving {
                goal: Goal::ExactBeaconRandomness,
                draw: Draw { pers, round, entropy },
                lookback: false,
            },
        )
    }

    /// Randomness for `round` from the latest beacon entry on the chain
    /// that ends in `blocks`.
    pub fn get_beacon_randomness(
        &self,
        blocks: TipsetKeys,
        pers: i64,
        round: i64,
        entropy: Vec<u8>,
        lookback: bool,
    ) -> (out: Progress)
        ensures
            out == beacon_start(blocks, pers, round, entropy, lookback),
    {
        Progress::Ask(
            Lookup::TipsetFromKeys(blocks),
            Pending::Resolving {
                goal: Goal::BeaconRandomness,
                draw: Draw { pers, round, entropy },
                lookback,
            },
        )
    }

    /// The beacon entry whose round is the greatest beacon round of
    /// `epoch`, searched from the tipset at `epoch` through at most
    /// `MAX_WALK` tipsets towards the ancestors.
    pub fn extract_beacon_entry_for_epoch(&self, blocks: TipsetKeys, epoch: i64) -> (out: Progress)
        ensures
            begins_plain(out, Goal::BeaconEntry, blocks, epoch, false),
    {
        let draw = Draw { pers: 0, round: epoch, entropy: Vec::new() };
        let out = Progress::Ask(
            Lookup::TipsetFromKeys(blocks),
            Pending::Resolving { goal: Goal::BeaconEntry, draw, lookback: false },
        );
        assert(out == begin(Goal::BeaconEntry, blocks, draw, false));
        out
    }

    /// The tipset that randomness for `round` is drawn from.
    pub fn get_beacon_randomness_tipset(
        &self,
        blocks: TipsetKeys,
        round: i64,
        lookback: bool,
    ) -> (out: Progress)
        ensures
            begins_plain(out, Goal::RandomnessTipset, blocks, round, lookback),
    {
        let draw = Draw { pers: 0, round, entropy: Vec::new() };
        let out = Progress::Ask(
            Lookup::TipsetFromKeys(blocks),
            Pending::Resolving { goal: Goal::RandomnessTipset, draw, lookback },
        );
        assert(out == begin(Goal::RandomnessTipset, blocks, draw, lookback));
        out
    }

    /// Ticket randomness relative to this instance's own tipset, as the
    /// execution engine asks for it.
    pub fn chain_randomness(self, pers: i64, round: i64, entropy: Vec<u8>) -> (out: Progress)
        ensures
            out == chain_start(self.scope(), pers, round, entropy, false),
    {
        Progress::Ask(
            Lookup::TipsetFromKeys(self.blks),
            Pending::Resolving {
                goal: Goal::ChainRandomness,
                draw: Draw { pers, round, entropy },
                lookback: false,
            },
        )
    }

    /// Beacon randomness relative to this instance's own tipset, as the
    /// execution engine asks for it.
    pub fn beacon_randomness(self, pers: i64, round: i64, entropy: Vec<u8>) -> (out: Progress)
        ensures
            out == beacon_v3_start(self.scope(), pers, round, entropy),
    {
        let goal = if round < 0 {
            Goal::BeaconRandomness
        } else {
            Goal::ExactBeaconRandomness
        };
        Progress::Ask(
            Lookup::TipsetFromKeys(self.blks),
            Pending::Resolving { goal, draw: Draw { pers, round, entropy }, lookback: false },
        )
    }
}

/// Two draws from the same base, tag, round and entropy are the same 32
/// bytes.
pub proof fn lemma_draw_is_a_function(
    a: [u8; 32],
    b: [u8; 32],
    base: Seq<u8>,
    pers: i64,
    round: i64,
    entropy: Seq<u8>,
)
    requires
        a@ == drawn(base, pers, round, entropy),
        b@ == drawn(base, pers, round, entropy),
    ensures
        a == b,
{
    assert(a@ =~= b@);
    assert(a =~= b);
}

/// A round after the epoch of the tipset that the draw is relative to is
/// refused, whatever is asked for, and nothing more is looked up.
pub proof fn lemma_future_round_rejected(
    goal: Goal,
    draw: Draw,
    lookback: bool,
    ts: Tipset,
    out: Progress,
)
    requires
        draw.round > ts.epoch,
        step(Pending::Resolving { goal, draw, lookback }, Reply::Tipset(ts), out),
    ensures
        out == Progress::Fail(Error::FutureRandomness),
        !(out is Ask),
{
}

/// With a negative round, beacon randomness of the later protocol is the
/// derivation of the earlier protocol: it starts in the same state with
/// the same question.
pub proof fn lemma_negative_round_fallback(
    blocks: TipsetKeys,
    pers: i64,
    round: i64,
    entropy: Vec<u8>,
)
    requires
        round < 0,
    ensures
        beacon_v3_start(blocks, pers, round, entropy) == beacon_start(
            blocks,
            pers,
            round,
            entropy,
            false,
        ),
{
}

/// Whether `outs` are the steps of a search for `target` that is answered
/// with the tipsets of `chain` in turn: the first is looked into when the
/// wanted round arrives, each later one when the question before it is
/// answered.
pub open spec fn walk_steps(
    goal: Goal,
    draw: Draw,
    target: u64,
    chain: Seq<Tipset>,
    outs: Seq<Progress>,
) -> bool {
    &&& outs.len() == chain.len()
    &&& chain.len() > 0 ==> step(
        Pending::MaxRound { goal, draw, tipset: chain[0] },
        Reply::Round(target),
        outs[0],
    )
    &&& forall|i: int|
        1 <= i < chain.len() ==> match #[trigger] outs[i - 1] {
            Progress::Ask(_, p) => step(p, Reply::Tipset(chain[i]), outs[i]),
            _ => true,
        }
}

/// Whether the first block of tipset `i` of `chain` is there and holds no
/// entry of the round `target`.
pub open spec fn misses(chain: Seq<Tipset>, target: u64, i: int) -> bool {
    chain[i].blocks@.len() > 0 && !has_round(searched_entries(chain[i]), target)
}

/// While no tipset holds the round and the bound is not reached, step `k`
/// of a search asks for the parents of tipset `k`, having looked into
/// `k + 1` tipsets.
pub proof fn lemma_walk_counts(
    goal: Goal,
    draw: Draw,
    target: u64,
    chain: Seq<Tipset>,
    outs: Seq<Progress>,
    k: int,
)
    requires
        walk_steps(goal, draw, target, chain, outs),
        0 <= k < chain.len(),
        k + 1 < MAX_WALK,
        forall|i: int| 0 <= i <= k ==> #[trigger] misses(chain, target, i),
    ensures
        outs[k] == Progress::Ask(
            Lookup::TipsetFromKeys(chain[k].parents),
            Pending::Walking { goal, draw, target, examined: (k + 1) as u8 },
        ),
    decreases k,
{
    assert(misses(chain, target, k));
    if k > 0 {
        lemma_walk_counts(goal, draw, target, chain, outs, k - 1);
        assert(outs[k - 1] is Ask);
    }
}

/// A search that finds the round in none of the first `MAX_WALK` tipsets
/// fails with `BeaconNotFound` when it has looked into the last of them. It
/// asks for no further tipset: what the ancestors beyond hold, and whether
/// they can be loaded, does not count.
pub proof fn lemma_walk_bounded(
    goal: Goal,
    draw: Draw,
    target: u64,
    chain: Seq<Tipset>,
    outs: Seq<Progress>,
)
    requires
        walk_steps(goal, draw, target, chain, outs),
        chain.len() >= MAX_WALK,
        forall|i: int| 0 <= i < MAX_WALK ==> #[trigger] misses(chain, target, i),
    ensures
        forall|k: int| 0 <= k < MAX_WALK - 1 ==> #[trigger] outs[k] is Ask,
        outs[MAX_WALK - 1] == Progress::Fail(Error::BeaconNotFound),
{
    assert forall|k: int| 0 <= k < MAX_WALK - 1 implies #[trigger] outs[k] is Ask by {
        lemma_walk_counts(goal, draw, target, chain, outs, k);
    }
    let last: int = MAX_WALK - 1;
    lemma_walk_counts(goal, draw, target, chain, outs, last - 1);
    let before = Pending::Walking { goal, draw, target, examined: last as u8 };
    assert(outs[last - 1] == Progress::Ask(
        Lookup::TipsetFromKeys(chain[last - 1].parents),
        before,
    ));
    assert(step(before, Reply::Tipset(chain[last]), outs[last]));
    assert(misses(chain, target, last));
    assert(examined_to(goal, draw, target, last as u8, chain[last], outs[last]));
}

/// Two steps that are randomness drawn from the same base for the same
/// draw are the same step.
proof fn lemma_drawn_once(a: Progress, b: Progress, base: Seq<u8>, draw: Draw)
    requires
        is_drawn(a, base, draw),
        is_drawn(b, base, draw),
    ensures
        a == b,
{
    let ra = a->Done_0->Randomness_0;
    let rb = b->Done_0->Randomness_0;
    assert(ra@ =~= rb@);
    assert(ra =~= rb);
}

/// Looking into a tipset has one result.
proof fn lemma_examined_once(
    goal: Goal,
    draw: Draw,
    target: u64,
    examined: u8,
    ts: Tipset,
    a: Progress,
    b: Progress,
)
    requires
        examined_to(goal, draw, target, examined, ts, a),
        examined_to(goal, draw, target, examined, ts, b),
    ensures
        a == b,
{
    let entries = searched_entries(ts);
    if examined < MAX_WALK && ts.blocks@.len() > 0 && has_round(entries, target) {
        let i = choose|i: int|
            is_first_match(entries, target, i) && if goal == Goal::BeaconEntry {
                a == Progress::Done(Outcome::Entry(entries[i]))
            } else {
                is_drawn(a, entries[i].data@, draw)
            };
        let j = choose|j: int|
            is_first_match(entries, target, j) && if goal == Goal::BeaconEntry {
                b == Progress::Done(Outcome::Entry(entries[j]))
            } else {
                is_drawn(b, entries[j].data@, draw)
            };
        if i < j {
            assert(entries[i].round != target);
        } else if j < i {
            assert(entries[j].round != target);
        }
        if goal != Goal::BeaconEntry {
            lemma_drawn_once(a, b, entries[i].data@, draw);
        }
    }
}

/// A derivation is determined by the answers it gets: its state and an
/// answer leave one step.
pub proof fn lemma_step_is_a_function(p: Pending, reply: Reply, a: Progress, b: Progress)
    requires
        step(p, reply, a),
        step(p, reply, b),
    ensures
        a == b,
{
    match (p, reply) {
        (Pending::Searching { goal, draw }, Reply::Tipset(ts)) => {
            if goal == Goal::ChainRandomness && ts.min_ticket is Some {
                lemma_drawn_once(a, b, ts.min_ticket.unwrap()@, draw);
            }
        },
        (Pending::LatestEntry { draw }, Reply::Entry(e)) => {
            lemma_drawn_once(a, b, e.data@, draw);
        },
        (Pending::MaxRound { goal, draw, tipset }, Reply::Round(target)) => {
            lemma_examined_once(goal, draw, target, 0, tipset, a, b);
        },
        (Pending::Walking { goal, draw, target, examined }, Reply::Tipset(ts)) => {
            lemma_examined_once(goal, draw, target, examined, ts, a, b);
        },
        _ => {},
    }
}

} // verus!
