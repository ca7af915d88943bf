//! Mint keys: the single-use credentials that principals redeem.

use vstd::prelude::*;

verus! {

/// A mint key as issued to a principal.
#[derive(Debug, PartialEq, Eq)]
pub struct MintKey {
    /// The principal the key was issued to.
    pub player: String,
    /// The number the principal has to present to redeem the key.
    pub key: i128,
    /// The ledger time at which the key was issued.
    pub generated_at: u64,
}

/// The mathematical content of a [`MintKey`].
pub struct MintKeyView {
    pub player: Seq<char>,
    pub key: i128,
    pub generated_at: u64,
}

impl View for MintKey {
    type V = MintKeyView;

    open spec fn view(&self) -> MintKeyView {
        MintKeyView { player: self.player@, key: self.key, generated_at: self.generated_at }
    }
}

/// The key that a principal gets at time `now` when the entropy source
/// yields `offset`: the clock reading plus the offset, stamped with the
/// clock reading.
pub open spec fn derived_key(player: Seq<char>, now: u64, offset: u64) -> MintKeyView {
    MintKeyView { player, key: (now + offset) as i128, generated_at: now }
}

/// Builds the key for `player_pub_key` from a reading of the ledger clock
/// and one draw of the entropy source. The same reading and draw always
/// give the same key.
pub fn generate_mint_key(
    player_pub_key: &String,
    timestamp: u64,
    pseudo_random: u64,
) -> (issued: MintKey)
    ensures
        issued@ == derived_key(player_pub_key@, timestamp, pseudo_random),
        issued.key == timestamp + pseudo_random,
{
    let base: i128 = timestamp as i128;
    let shift: i128 = pseudo_random as i128;
    MintKey { player: player_pub_key.clone(), key: base + shift, generated_at: timestamp }
}

impl Clone for MintKey {
    fn clone(&self) -> (copy: MintKey)
        ensures
            copy@ == self@,
    {
        MintKey { player: self.player.clone(), key: self.key, generated_at: self.generated_at }
    }
}

} // verus!
