use forest_core::chain_rand::{
    draw_randomness, BeaconEntry, Block, ChainRand, Lookup, Outcome, Pending, Progress, Reply,
    Tipset, TipsetKeys, MAX_WALK,
};
use forest_core::error::Error;
use forest_core::primitives::Cid;

fn keys(epoch: i64) -> TipsetKeys {
    TipsetKeys { cids: vec![Cid::from_bytes(epoch.to_be_bytes().to_vec())] }
}

fn tipset(epoch: i64, ticket: Option<Vec<u8>>, entries: Vec<BeaconEntry>) -> Tipset {
    Tipset {
        key: keys(epoch),
        epoch,
        parents: keys(epoch - 1),
        min_ticket: ticket,
        blocks: vec![Block { beacon_entries: entries }],
    }
}

/// A chain with one tipset at each epoch from 0 to `head`. The tipset at
/// epoch `e` has the ticket `[e]` and the beacon entries that `entries` gives.
struct Chain {
    tipsets: Vec<Tipset>,
    /// The greatest beacon round of an epoch is the epoch plus this.
    round_offset: u64,
}

impl Chain {
    fn new(head: i64, entries: &dyn Fn(i64) -> Vec<BeaconEntry>) -> Chain {
        let tipsets = (0..=head).map(|e| tipset(e, Some(vec![e as u8]), entries(e))).collect();
        Chain { tipsets, round_offset: 1000 }
    }

    fn by_key(&self, k: &TipsetKeys) -> Reply {
        match self.tipsets.iter().find(|t| &t.key == k) {
            Some(t) => Reply::Tipset(t.clone()),
            None => Reply::Failed("no such tipset".to_string()),
        }
    }

    fn answer(&self, lookup: &Lookup) -> Reply {
        match lookup {
            Lookup::TipsetFromKeys(k) => self.by_key(k),
            Lookup::TipsetByHeight { height, from, .. } => {
                if *height > from.epoch {
                    Reply::Failed("height above head".to_string())
                } else {
                    Reply::Tipset(self.tipsets[*height as usize].clone())
                }
            }
            Lookup::LatestBeaconEntry(ts) => {
                Reply::Entry(BeaconEntry::new(ts.epoch as u64 + 500, vec![0xBE, ts.epoch as u8]))
            }
            Lookup::MaxBeaconRound(epoch) => Reply::Round(*epoch as u64 + self.round_offset),
        }
    }

    /// Runs a derivation to its end; hands back the end and the questions.
    fn run(&self, first: Progress) -> (Result<Outcome, Error>, Vec<Lookup>) {
        let mut asked = Vec::new();
        let mut progress = first;
        loop {
            match progress {
                Progress::Ask(lookup, pending) => {
                    let reply = self.answer(&lookup);
                    asked.push(lookup);
                    progress = pending.advance(reply);
                }
                Progress::Done(out) => return (Ok(out), asked),
                Progress::Fail(e) => return (Err(e), asked),
            }
        }
    }
}

fn no_entries(_: i64) -> Vec<BeaconEntry> {
    Vec::new()
}

fn rand() -> ChainRand {
    ChainRand::new(keys(10))
}

#[test]
fn chain_randomness_draws_from_the_ticket() {
    let chain = Chain::new(10, &no_entries);
    let (out, asked) = chain.run(rand().get_chain_randomness(keys(10), 3, 7, vec![1, 2], true));
    let expected = draw_randomness(&[7], 3, 7, &[1, 2]).unwrap();
    assert_eq!(out, Ok(Outcome::Randomness(expected)));
    assert_eq!(asked.len(), 2);
    assert_eq!(asked[0], Lookup::TipsetFromKeys(keys(10)));
    assert_eq!(
        asked[1],
        Lookup::TipsetByHeight { height: 7, from: chain.tipsets[10].clone(), lookback: true }
    );
}

#[test]
fn chain_randomness_v2_fixes_no_lookback() {
    let chain = Chain::new(10, &no_entries);
    let (out, asked) = chain.run(rand().get_chain_randomness_v2(keys(10), 3, 7, vec![]));
    assert_eq!(out, Ok(Outcome::Randomness(draw_randomness(&[7], 3, 7, &[]).unwrap())));
    assert_eq!(
        asked[1],
        Lookup::TipsetByHeight { height: 7, from: chain.tipsets[10].clone(), lookback: false }
    );
}

#[test]
fn future_round_is_rejected_without_further_lookup() {
    let chain = Chain::new(10, &no_entries);
    let cr = rand();
    let starts = vec![
        cr.get_chain_randomness(keys(10), 1, 11, vec![], false),
        cr.get_chain_randomness_v2(keys(10), 1, 11, vec![]),
        cr.get_beacon_randomness(keys(10), 1, 11, vec![], true),
        cr.get_beacon_randomness_v2(keys(10), 1, 11, vec![]),
        cr.get_beacon_randomness_v3(keys(10), 1, 11, vec![]),
        cr.extract_beacon_entry_for_epoch(keys(10), 11),
        cr.get_beacon_randomness_tipset(keys(10), 11, false),
    ];
    for start in starts {
        let (out, asked) = chain.run(start);
        assert_eq!(out, Err(Error::FutureRandomness));
        assert_eq!(asked, vec![Lookup::TipsetFromKeys(keys(10))]);
    }
}

#[test]
fn round_equal_to_epoch_is_accepted() {
    let chain = Chain::new(10, &no_entries);
    let (out, _) = chain.run(rand().get_chain_randomness(keys(10), 1, 10, vec![], false));
    assert_eq!(out, Ok(Outcome::Randomness(draw_randomness(&[10], 1, 10, &[]).unwrap())));
}

#[test]
fn negative_round_searches_at_height_zero() {
    let chain = Chain::new(10, &no_entries);
    let (out, asked) = chain.run(rand().get_chain_randomness(keys(10), 2, -5, vec![9], false));
    // the ticket is that of the tipset at height 0, the round stays -5
    assert_eq!(out, Ok(Outcome::Randomness(draw_randomness(&[0], 2, -5, &[9]).unwrap())));
    assert_eq!(
        asked[1],
        Lookup::TipsetByHeight { height: 0, from: chain.tipsets[10].clone(), lookback: false }
    );
}

#[test]
fn missing_ticket_fails() {
    let mut chain = Chain::new(10, &no_entries);
    chain.tipsets[4].min_ticket = None;
    let (out, _) = chain.run(rand().get_chain_randomness(keys(10), 2, 4, vec![], false));
    assert_eq!(out, Err(Error::MissingTicket));
}

#[test]
fn beacon_randomness_draws_from_the_latest_entry() {
    let chain = Chain::new(10, &no_entries);
    let (out, asked) = chain.run(rand().get_beacon_randomness(keys(10), 4, 6, vec![5], false));
    assert_eq!(out, Ok(Outcome::Randomness(draw_randomness(&[0xBE, 6], 4, 6, &[5]).unwrap())));
    assert_eq!(asked.len(), 3);
    assert_eq!(asked[2], Lookup::LatestBeaconEntry(chain.tipsets[6].clone()));
}

#[test]
fn negative_round_falls_back_to_the_earlier_protocol() {
    let chain = Chain::new(10, &no_entries);
    let cr = rand();
    let v3 = cr.get_beacon_randomness_v3(keys(10), 4, -1, vec![5, 6]);
    let v2 = cr.get_beacon_randomness_v2(keys(10), 4, -1, vec![5, 6]);
    assert_eq!(v3, v2);
    let (out3, asked3) = chain.run(v3);
    let (out2, asked2) = chain.run(v2);
    assert_eq!(out3, out2);
    assert_eq!(asked3, asked2);
    assert_eq!(out3, Ok(Outcome::Randomness(draw_randomness(&[0xBE, 0], 4, -1, &[5, 6]).unwrap())));
}

#[test]
fn later_protocol_draws_from_the_entry_of_the_exact_round() {
    // the entry of the round of epoch 8 stands three tipsets back
    let chain = Chain::new(10, &|e| {
        if e == 5 {
            vec![BeaconEntry::new(7, vec![1]), BeaconEntry::new(1008, vec![0xAB, 0xCD])]
        } else {
            vec![BeaconEntry::new(e as u64, vec![e as u8])]
        }
    });
    let (out, asked) = chain.run(rand().get_beacon_randomness_v3(keys(10), 6, 8, vec![3]));
    assert_eq!(out, Ok(Outcome::Randomness(draw_randomness(&[0xAB, 0xCD], 6, 8, &[3]).unwrap())));
    assert_eq!(asked[2], Lookup::MaxBeaconRound(8));
    assert_eq!(&asked[3..], &[
        Lookup::TipsetFromKeys(keys(7)),
        Lookup::TipsetFromKeys(keys(6)),
        Lookup::TipsetFromKeys(keys(5)),
    ]);
}

#[test]
fn later_protocol_differs_from_the_earlier_at_round_zero() {
    let chain = Chain::new(3, &|e| vec![BeaconEntry::new(e as u64 + 1000, vec![0x11, e as u8])]);
    let (v3, _) = chain.run(rand().get_beacon_randomness_v3(keys(3), 1, 0, vec![]));
    let (v2, _) = chain.run(rand().get_beacon_randomness_v2(keys(3), 1, 0, vec![]));
    assert_eq!(v3, Ok(Outcome::Randomness(draw_randomness(&[0x11, 0], 1, 0, &[]).unwrap())));
    assert_eq!(v2, Ok(Outcome::Randomness(draw_randomness(&[0xBE, 0], 1, 0, &[]).unwrap())));
}

#[test]
fn extract_returns_the_first_entry_of_the_round() {
    let chain = Chain::new(10, &|e| {
        if e == 9 {
            vec![
                BeaconEntry::new(3, vec![0]),
                BeaconEntry::new(1009, vec![1]),
                BeaconEntry::new(1009, vec![2]),
            ]
        } else {
            Vec::new()
        }
    });
    let (out, asked) = chain.run(rand().extract_beacon_entry_for_epoch(keys(10), 9));
    assert_eq!(out, Ok(Outcome::Entry(BeaconEntry::new(1009, vec![1]))));
    assert_eq!(asked.len(), 3);
}

#[test]
fn search_gives_up_after_twenty_tipsets() {
    let chain = Chain::new(40, &no_entries);
    let (out, asked) = chain.run(rand().extract_beacon_entry_for_epoch(keys(40), 35));
    assert_eq!(out, Err(Error::BeaconNotFound));
    // resolve, by height, round; then the 19 tipsets below the first: 34 down to 16
    assert_eq!(asked.len(), 3 + 19);
    for (i, lookup) in asked[3..].iter().enumerate() {
        assert_eq!(lookup, &Lookup::TipsetFromKeys(keys(34 - i as i64)));
    }
    assert_eq!(asked.last(), Some(&Lookup::TipsetFromKeys(keys(16))));
    assert_eq!(MAX_WALK, 20);
}

#[test]
fn search_finds_the_round_in_the_twentieth_tipset() {
    let chain = Chain::new(40, &|e| {
        if e == 16 {
            vec![BeaconEntry::new(1035, vec![0x20])]
        } else {
            Vec::new()
        }
    });
    let (out, _) = chain.run(rand().extract_beacon_entry_for_epoch(keys(40), 35));
    assert_eq!(out, Ok(Outcome::Entry(BeaconEntry::new(1035, vec![0x20]))));
}

#[test]
fn search_does_not_look_into_a_twenty_first_tipset() {
    let chain = Chain::new(40, &|e| {
        if e == 15 {
            vec![BeaconEntry::new(1035, vec![0x21])]
        } else {
            Vec::new()
        }
    });
    let (out, asked) = chain.run(rand().extract_beacon_entry_for_epoch(keys(40), 35));
    assert_eq!(out, Err(Error::BeaconNotFound));
    assert!(!asked.contains(&Lookup::TipsetFromKeys(keys(15))));
    let (out, asked) = chain.run(rand().get_beacon_randomness_v3(keys(40), 1, 35, vec![]));
    assert_eq!(out, Err(Error::BeaconNotFound));
    assert!(!asked.contains(&Lookup::TipsetFromKeys(keys(15))));
}

#[test]
fn search_gives_up_where_the_chain_ends_with_the_twentieth_tipset() {
    // 20 tipsets, 19 down to 0: the parents of the last cannot be loaded,
    // and are not asked for
    let chain = Chain::new(19, &no_entries);
    let (out, asked) = chain.run(rand().extract_beacon_entry_for_epoch(keys(19), 19));
    assert_eq!(out, Err(Error::BeaconNotFound));
    assert_eq!(asked.len(), 3 + 19);
    assert!(!asked.contains(&Lookup::TipsetFromKeys(keys(-1))));
}

#[test]
fn search_on_a_chain_of_nineteen_tipsets_hands_on_the_failure() {
    let chain = Chain::new(18, &no_entries);
    let (out, asked) = chain.run(rand().extract_beacon_entry_for_epoch(keys(18), 18));
    assert_eq!(out, Err(Error::Store("no such tipset".to_string())));
    assert_eq!(asked.last(), Some(&Lookup::TipsetFromKeys(keys(-1))));
}

#[test]
fn search_reads_only_the_first_block() {
    let mut chain = Chain::new(10, &no_entries);
    for ts in chain.tipsets.iter_mut() {
        ts.blocks.push(Block { beacon_entries: vec![BeaconEntry::new(1009, vec![0x5E])] });
    }
    chain.tipsets[7].blocks[0].beacon_entries.push(BeaconEntry::new(1009, vec![0xF1]));
    let (out, asked) = chain.run(rand().extract_beacon_entry_for_epoch(keys(10), 9));
    assert_eq!(out, Ok(Outcome::Entry(BeaconEntry::new(1009, vec![0xF1]))));
    assert_eq!(asked.last(), Some(&Lookup::TipsetFromKeys(keys(7))));
}

#[test]
fn tipset_without_a_block_is_refused() {
    let mut chain = Chain::new(10, &no_entries);
    chain.tipsets[8].blocks.clear();
    let (out, _) = chain.run(rand().extract_beacon_entry_for_epoch(keys(10), 9));
    assert_eq!(out, Err(Error::UnexpectedReply));
}

#[test]
fn search_that_runs_out_of_chain_hands_on_the_failure() {
    let chain = Chain::new(5, &no_entries);
    let (out, _) = chain.run(rand().extract_beacon_entry_for_epoch(keys(5), 5));
    assert_eq!(out, Err(Error::Store("no such tipset".to_string())));
}

#[test]
fn randomness_tipset_is_the_one_at_the_search_height() {
    let chain = Chain::new(10, &no_entries);
    let (out, _) = chain.run(rand().get_beacon_randomness_tipset(keys(10), 4, false));
    assert_eq!(out, Ok(Outcome::Tipset(chain.tipsets[4].clone())));
    let (out, _) = chain.run(rand().get_beacon_randomness_tipset(keys(10), -3, true));
    assert_eq!(out, Ok(Outcome::Tipset(chain.tipsets[0].clone())));
}

#[test]
fn unknown_tipset_hands_on_the_failure() {
    let chain = Chain::new(10, &no_entries);
    let (out, asked) = chain.run(rand().get_chain_randomness(keys(77), 1, 1, vec![], false));
    assert_eq!(out, Err(Error::Store("no such tipset".to_string())));
    assert_eq!(asked.len(), 1);
}

#[test]
fn answer_of_the_wrong_kind_is_refused() {
    let start = rand().get_chain_randomness(keys(10), 1, 1, vec![], false);
    let pending: Pending = match start {
        Progress::Ask(_, p) => p,
        _ => panic!("a derivation starts with a question"),
    };
    assert_eq!(pending.advance(Reply::Round(3)), Progress::Fail(Error::UnexpectedReply));
}

#[test]
fn scoped_draws_use_the_instance_tipset() {
    let chain = Chain::new(10, &|e| vec![BeaconEntry::new(e as u64 + 1000, vec![e as u8])]);
    let (out, asked) = chain.run(rand().chain_randomness(2, 9, vec![1]));
    assert_eq!(out, Ok(Outcome::Randomness(draw_randomness(&[9], 2, 9, &[1]).unwrap())));
    assert_eq!(asked[0], Lookup::TipsetFromKeys(keys(10)));
    let (out, _) = chain.run(rand().beacon_randomness(2, 9, vec![1]));
    assert_eq!(out, Ok(Outcome::Randomness(draw_randomness(&[9], 2, 9, &[1]).unwrap())));
    let (neg, _) = chain.run(rand().beacon_randomness(2, -9, vec![1]));
    let (v2, _) = chain.run(rand().get_beacon_randomness_v2(keys(10), 2, -9, vec![1]));
    assert_eq!(neg, v2);
}
