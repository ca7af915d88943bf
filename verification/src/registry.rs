//! The mint-key registry: for each principal, its outstanding key.

use vstd::prelude::*;
use crate::assoc::{
    distinct, lemma_absent, lemma_bound_occurs, lemma_empty, lemma_found, lemma_push, lemma_remove,
    lemma_update, table, Pairs,
};
use crate::mint_key::{MintKey, MintKeyView};

verus! {

/// The (principal, key) pairs that a list of keys spells out. Each key is
/// filed under the principal it names.
pub open spec fn key_pairs(keys: Seq<MintKey>) -> Pairs<MintKeyView> {
    Seq::new(keys.len(), |i: int| (keys[i].player@, keys[i]@))
}

/// Whether `presented` is the number of the key that `keys` holds for `who`.
pub open spec fn key_matches(
    keys: Map<Seq<char>, MintKeyView>,
    who: Seq<char>,
    presented: i128,
) -> bool {
    keys.contains_key(who) && keys[who].key == presented
}

/// What a map of outstanding keys holds for `who`.
pub open spec fn outstanding_key(
    keys: Map<Seq<char>, MintKeyView>,
    who: Seq<char>,
) -> Option<MintKeyView> {
    if keys.contains_key(who) {
        Some(keys[who])
    } else {
        None
    }
}

/// Every key of the map is filed under the principal it names.
pub open spec fn filed_by_player(keys: Map<Seq<char>, MintKeyView>) -> bool {
    forall|who: Seq<char>| keys.contains_key(who) ==> (#[trigger] keys[who]).player == who
}

/// The map from principals to their outstanding key. A principal has at
/// most one; issuing another replaces it.
pub struct MintKeyRegistry {
    keys: Vec<MintKey>,
}

impl View for MintKeyRegistry {
    type V = Map<Seq<char>, MintKeyView>;

    closed spec fn view(&self) -> Map<Seq<char>, MintKeyView> {
        table(key_pairs(self.keys@))
    }
}

impl MintKeyRegistry {
    #[verifier::type_invariant]
    spec fn no_player_twice(self) -> bool {
        distinct(key_pairs(self.keys@))
    }

    /// A registry without keys.
    pub fn new() -> (registry: MintKeyRegistry)
        ensures
            registry@ == Map::<Seq<char>, MintKeyView>::empty(),
    {
        let keys: Vec<MintKey> = Vec::new();
        proof {
            lemma_empty::<MintKeyView>();
            assert(key_pairs(keys@) =~= Seq::<(Seq<char>, MintKeyView)>::empty());
        }
        MintKeyRegistry { keys }
    }

    /// The outstanding keys, one for each principal that holds one.
    pub fn keys(&self) -> (all: &Vec<MintKey>)
        ensures
            distinct(key_pairs(all@)),
            self@ == table(key_pairs(all@)),
    {
        proof {
            use_type_invariant(self);
        }
        &self.keys
    }

    /// The outstanding key of `player`, if it holds one.
    pub fn get(&self, player: &String) -> (found: Option<MintKey>)
        ensures
            match found {
                Some(k) => outstanding_key(self@, player@) == Some(k@),
                None => outstanding_key(self@, player@) is None,
            },
    {
        proof {
            use_type_invariant(self);
        }
        match position(&self.keys, player) {
            Some(i) => {
                proof {
                    lemma_found(key_pairs(self.keys@), i as int);
                }
                Some(self.keys[i].clone())
            },
            None => {
                proof {
                    lemma_absent(key_pairs(self.keys@), player@);
                }
                None
            },
        }
    }

    /// Whether `presented` is the number of the outstanding key of `player`.
    pub fn validate(&self, player: &String, presented: i128) -> (valid: bool)
        ensures
            valid == key_matches(self@, player@, presented),
    {
        proof {
            use_type_invariant(self);
        }
        match position(&self.keys, player) {
            Some(i) => {
                proof {
                    lemma_found(key_pairs(self.keys@), i as int);
                }
                self.keys[i].key == presented
            },
            None => {
                proof {
                    lemma_absent(key_pairs(self.keys@), player@);
                }
                false
            },
        }
    }

    /// Files `issued` under the principal it names, in place of the key that
    /// principal held before.
    pub fn issue(&mut self, issued: MintKey)
        ensures
            final(self)@ == old(self)@.insert(issued@.player, issued@),
    {
        proof {
            use_type_invariant(&*self);
            lemma_empty::<MintKeyView>();
        }
        let ghost before = key_pairs(self.keys@);
        let ghost content = issued@;
        let mut keys: Vec<MintKey> = Vec::new();
        assert(key_pairs(keys@) =~= Seq::<(Seq<char>, MintKeyView)>::empty());
        core::mem::swap(&mut self.keys, &mut keys);
        match position(&keys, &issued.player) {
            Some(i) => {
                keys[i] = issued;
                proof {
                    lemma_update(before, i as int, content);
                    assert(key_pairs(keys@) =~= before.update(
                        i as int,
                        (before[i as int].0, content),
                    ));
                }
            },
            None => {
                keys.push(issued);
                proof {
                    lemma_push(before, content.player, content);
                    assert(key_pairs(keys@) =~= before.push((content.player, content)));
                }
            },
        }
        core::mem::swap(&mut self.keys, &mut keys);
    }

    /// Removes the outstanding key of `player`, if it holds one.
    pub fn clear(&mut self, player: &String)
        ensures
            final(self)@ == old(self)@.remove(player@),
    {
        proof {
            use_type_invariant(&*self);
            lemma_empty::<MintKeyView>();
        }
        let ghost before = key_pairs(self.keys@);
        let mut keys: Vec<MintKey> = Vec::new();
        assert(key_pairs(keys@) =~= Seq::<(Seq<char>, MintKeyView)>::empty());
        core::mem::swap(&mut self.keys, &mut keys);
        match position(&keys, player) {
            Some(i) => {
                let _ = keys.remove(i);
                proof {
                    lemma_remove(before, i as int);
                    assert(key_pairs(keys@) =~= before.remove(i as int));
                }
            },
            None => {
                proof {
                    lemma_absent(before, player@);
                    assert(table(before).remove(player@) =~= table(before));
                }
            },
        }
        core::mem::swap(&mut self.keys, &mut keys);
    }

    /// Every key of a registry is filed under the principal it names.
    pub proof fn lemma_filed_by_player(self)
        ensures
            filed_by_player(self@),
    {
        let pairs = key_pairs(self.keys@);
        assert forall|who: Seq<char>| self@.contains_key(who) implies (#[trigger] self@[who]).player
            == who by {
            let _ = lemma_bound_occurs(pairs, who);
        }
    }
}

/// The position of the key of `player`, if it holds one.
fn position(keys: &Vec<MintKey>, player: &String) -> (at: Option<usize>)
    ensures
        match at {
            Some(i) => i < keys@.len() && keys@[i as int].player@ == player@,
            None => forall|i: int| 0 <= i < keys@.len() ==> keys@[i].player@ != player@,
        },
{
    let mut i: usize = 0;
    while i < keys.len()
        invariant
            i <= keys@.len(),
            forall|j: int| 0 <= j < i ==> keys@[j].player@ != player@,
        decreases keys@.len() - i,
    {
        if keys[i].player == *player {
            return Some(i);
        }
        i += 1;
    }
    None
}

} // verus!
