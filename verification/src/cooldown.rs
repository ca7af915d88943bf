//! The cooldown ledger: for each principal, when it last redeemed a key.

use vstd::prelude::*;
use crate::assoc::{
    distinct, lemma_absent, lemma_empty, lemma_found, lemma_push, lemma_update, table, Pairs,
};

verus! {

/// One line of the cooldown ledger.
#[derive(Debug, PartialEq, Eq)]
pub struct CooldownRecord {
    /// The principal that redeemed.
    pub player: String,
    /// The ledger time of its latest redemption.
    pub last_redeemed_at: u64,
}

/// Whether a principal whose latest redemption is `last` (`None`: it never
/// redeemed) may act at time `now` under a cooldown of `cooldown_seconds`.
pub open spec fn eligible_at(last: Option<u64>, now: u64, cooldown_seconds: u64) -> bool {
    match last {
        None => true,
        Some(at) => now >= at + cooldown_seconds,
    }
}

/// What a map of redemption times records for `who`.
pub open spec fn last_redemption(times: Map<Seq<char>, u64>, who: Seq<char>) -> Option<u64> {
    if times.contains_key(who) {
        Some(times[who])
    } else {
        None
    }
}

/// The (principal, time) pairs that a list of records spells out.
pub open spec fn cooldown_pairs(records: Seq<CooldownRecord>) -> Pairs<u64> {
    Seq::new(records.len(), |i: int| (records[i].player@, records[i].last_redeemed_at))
}

/// The map from principals to the time of their latest redemption. A
/// principal without an entry has never redeemed.
pub struct CooldownLedger {
    records: Vec<CooldownRecord>,
}

impl View for CooldownLedger {
    type V = Map<Seq<char>, u64>;

    closed spec fn view(&self) -> Map<Seq<char>, u64> {
        table(cooldown_pairs(self.records@))
    }
}

impl CooldownLedger {
    #[verifier::type_invariant]
    spec fn no_player_twice(self) -> bool {
        distinct(cooldown_pairs(self.records@))
    }

    /// A ledger without entries.
    pub fn new() -> (ledger: CooldownLedger)
        ensures
            ledger@ == Map::<Seq<char>, u64>::empty(),
    {
        let records: Vec<CooldownRecord> = Vec::new();
        proof {
            lemma_empty::<u64>();
            assert(cooldown_pairs(records@) =~= Seq::<(Seq<char>, u64)>::empty());
        }
        CooldownLedger { records }
    }

    /// The records of the ledger, one for each principal that ever redeemed.
    pub fn records(&self) -> (all: &Vec<CooldownRecord>)
        ensures
            distinct(cooldown_pairs(all@)),
            self@ == table(cooldown_pairs(all@)),
    {
        proof {
            use_type_invariant(self);
        }
        &self.records
    }

    /// The time of the latest redemption of `player`, if it ever redeemed.
    pub fn last_redeemed(&self, player: &String) -> (last: Option<u64>)
        ensures
            last == last_redemption(self@, player@),
    {
        proof {
            use_type_invariant(self);
        }
        match position(&self.records, player) {
            Some(i) => {
                proof {
                    lemma_found(cooldown_pairs(self.records@), i as int);
                }
                Some(self.records[i].last_redeemed_at)
            },
            None => {
                proof {
                    lemma_absent(cooldown_pairs(self.records@), player@);
                }
                None
            },
        }
    }

    /// Whether `player` may act at time `now`: it never redeemed, or its
    /// latest redemption lies at least `cooldown_seconds` back.
    pub fn is_eligible(&self, player: &String, now: u64, cooldown_seconds: u64) -> (free: bool)
        ensures
            free == eligible_at(last_redemption(self@, player@), now, cooldown_seconds),
    {
        match self.last_redeemed(player) {
            None => true,
            Some(at) => match at.checked_add(cooldown_seconds) {
                Some(free_from) => now >= free_from,
                None => false,
            },
        }
    }

    /// Records that `player` redeemed at time `now`, in place of what was
    /// recorded for it before.
    pub fn record_redemption(&mut self, player: &String, now: u64)
        ensures
            final(self)@ == old(self)@.insert(player@, now),
    {
        proof {
            use_type_invariant(&*self);
            lemma_empty::<u64>();
        }
        let ghost before = cooldown_pairs(self.records@);
        let mut records: Vec<CooldownRecord> = Vec::new();
        assert(cooldown_pairs(records@) =~= Seq::<(Seq<char>, u64)>::empty());
        core::mem::swap(&mut self.records, &mut records);
        match position(&records, player) {
            Some(i) => {
                records[i].last_redeemed_at = now;
                proof {
                    lemma_update(before, i as int, now);
                    assert(cooldown_pairs(records@) =~= before.update(
                        i as int,
                        (before[i as int].0, now),
                    ));
                }
            },
            None => {
                records.push(CooldownRecord { player: player.clone(), last_redeemed_at: now });
                proof {
                    lemma_push(before, player@, now);
                    assert(cooldown_pairs(records@) =~= before.push((player@, now)));
                }
            },
        }
        core::mem::swap(&mut self.records, &mut records);
    }
}

/// The position of the record of `player`, if it has one.
fn position(records: &Vec<CooldownRecord>, player: &String) -> (at: Option<usize>)
    ensures
        match at {
            Some(i) => i < records@.len() && records@[i as int].player@ == player@,
            None => forall|i: int| 0 <= i < records@.len() ==> records@[i].player@ != player@,
        },
{
    let mut i: usize = 0;
    while i < records.len()
        invariant
            i <= records@.len(),
            forall|j: int| 0 <= j < i ==> records@[j].player@ != player@,
        decreases records@.len() - i,
    {
        if records[i].player == *player {
            return Some(i);
        }
        i += 1;
    }
    None
}

} // verus!
