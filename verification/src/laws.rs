//! Laws of the authority, proved from the step relations that the
//! operations are specified by.
//!
//! A law speaks of states and steps as mathematical values, so it holds of
//! every run: of the operations that take their clock reading, draw and
//! token answer as arguments, and of those that ask the host for them.

use vstd::prelude::*;
use soroban_sdk::Address;
use crate::contract::{
    access_refusal, balance_step, initialize_step, issue_step, mint_refusal, mint_step, ContractView,
};
use crate::error::TapMintError;
use crate::mint_key::{derived_key, MintKeyView};
use crate::cooldown::last_redemption;
use crate::registry::{key_matches, outstanding_key};

verus! {

/// A principal that holds no key cannot redeem anything: whatever number it
/// presents once the authority is set up and its cooldown is over (as it is
/// for a principal that never redeemed), the redemption is refused with
/// `InvalidMintKey` and nothing changes.
pub proof fn mint_without_key_is_refused(
    pre: ContractView,
    who: Seq<char>,
    presented: i128,
    now: u64,
    moved: bool,
    post: ContractView,
    result: Result<u64, TapMintError>,
)
    requires
        pre.initialized,
        !pre.keys.contains_key(who),
        pre.eligible(who, now),
        mint_step(pre, who, presented, true, now, moved, post, result),
    ensures
        result == Err::<u64, TapMintError>(TapMintError::InvalidMintKey),
        post == pre,
{
}

/// Asking for a key twice in a row makes the first key worthless: when the
/// second key differs from the first, presenting the first one afterwards is
/// refused with `InvalidMintKey` and nothing changes.
pub proof fn second_key_invalidates_first(
    s0: ContractView,
    who: Seq<char>,
    now1: u64,
    offset1: u64,
    s1: ContractView,
    first: MintKeyView,
    now2: u64,
    offset2: u64,
    s2: ContractView,
    second: MintKeyView,
    now3: u64,
    moved: bool,
    s3: ContractView,
    result: Result<u64, TapMintError>,
)
    requires
        issue_step(s0, who, true, now1, offset1, s1, Ok(first)),
        issue_step(s1, who, true, now2, offset2, s2, Ok(second)),
        first.key != second.key,
        now2 <= now3,
        mint_step(s2, who, first.key, true, now3, moved, s3, result),
    ensures
        result == Err::<u64, TapMintError>(TapMintError::InvalidMintKey),
        s3 == s2,
{
    assert(access_refusal(s1, who, true, now2) is None);
    assert(s2.keys[who] == second);
}

/// A key is good for one redemption: once the cooldown that the redemption
/// started is over, presenting the same key again is refused with
/// `InvalidMintKey` and nothing changes.
pub proof fn redeemed_key_is_spent(
    s0: ContractView,
    who: Seq<char>,
    key: i128,
    now1: u64,
    moved1: bool,
    s1: ContractView,
    redeemed_at: u64,
    now2: u64,
    moved2: bool,
    s2: ContractView,
    result: Result<u64, TapMintError>,
)
    requires
        mint_step(s0, who, key, true, now1, moved1, s1, Ok(redeemed_at)),
        s1.eligible(who, now2),
        mint_step(s1, who, key, true, now2, moved2, s2, result),
    ensures
        result == Err::<u64, TapMintError>(TapMintError::InvalidMintKey),
        s2 == s1,
{
    assert(mint_refusal(s0, who, key, true, now1) is None);
    assert(!s1.keys.contains_key(who));
}

/// A redeemed key never redeems again, whenever it is presented: during the
/// cooldown the repeat is refused with `CooldownActive`, after it with
/// `InvalidMintKey`, and nothing changes either way.
pub proof fn redeemed_key_never_redeems_again(
    s0: ContractView,
    who: Seq<char>,
    key: i128,
    now1: u64,
    moved1: bool,
    s1: ContractView,
    redeemed_at: u64,
    now2: u64,
    moved2: bool,
    s2: ContractView,
    result: Result<u64, TapMintError>,
)
    requires
        mint_step(s0, who, key, true, now1, moved1, s1, Ok(redeemed_at)),
        mint_step(s1, who, key, true, now2, moved2, s2, result),
    ensures
        result == Err::<u64, TapMintError>(
            if now2 < redeemed_at + s1.cooldown_seconds {
                TapMintError::CooldownActive
            } else {
                TapMintError::InvalidMintKey
            },
        ),
        s2 == s1,
{
    assert(mint_refusal(s0, who, key, true, now1) is None);
    assert(!s1.keys.contains_key(who));
    assert(s1.cooldowns[who] == redeemed_at);
}

/// After a redemption at `redeemed_at`, the principal cannot get a key
/// before `redeemed_at` plus the cooldown: the request is refused with
/// `CooldownActive` and nothing changes.
pub proof fn cooldown_refuses_get_mint_key(
    s0: ContractView,
    who: Seq<char>,
    key: i128,
    now0: u64,
    moved0: bool,
    s1: ContractView,
    redeemed_at: u64,
    now: u64,
    offset: u64,
    s2: ContractView,
    result: Result<MintKeyView, TapMintError>,
)
    requires
        mint_step(s0, who, key, true, now0, moved0, s1, Ok(redeemed_at)),
        now < redeemed_at + s1.cooldown_seconds,
        issue_step(s1, who, true, now, offset, s2, result),
    ensures
        result == Err::<MintKeyView, TapMintError>(TapMintError::CooldownActive),
        s2 == s1,
{
    assert(mint_refusal(s0, who, key, true, now0) is None);
    assert(s1.cooldowns[who] == redeemed_at);
}

/// After a redemption at `redeemed_at`, the principal cannot redeem before
/// `redeemed_at` plus the cooldown, whatever it presents: the redemption is
/// refused with `CooldownActive` and nothing changes.
pub proof fn cooldown_refuses_mint(
    s0: ContractView,
    who: Seq<char>,
    key: i128,
    now0: u64,
    moved0: bool,
    s1: ContractView,
    redeemed_at: u64,
    presented: i128,
    now: u64,
    moved: bool,
    s2: ContractView,
    result: Result<u64, TapMintError>,
)
    requires
        mint_step(s0, who, key, true, now0, moved0, s1, Ok(redeemed_at)),
        now < redeemed_at + s1.cooldown_seconds,
        mint_step(s1, who, presented, true, now, moved, s2, result),
    ensures
        result == Err::<u64, TapMintError>(TapMintError::CooldownActive),
        s2 == s1,
{
    assert(mint_refusal(s0, who, key, true, now0) is None);
    assert(s1.cooldowns[who] == redeemed_at);
}

/// The cooldown ends on time: exactly `redeemed_at` plus the cooldown after
/// a redemption, the principal gets a key, and that key redeems at once if
/// the token contract pays out.
pub proof fn cooldown_ends_on_time(
    s0: ContractView,
    who: Seq<char>,
    key: i128,
    now0: u64,
    moved0: bool,
    s1: ContractView,
    redeemed_at: u64,
    now: u64,
    offset: u64,
    s2: ContractView,
    issued: Result<MintKeyView, TapMintError>,
    s3: ContractView,
    redeemed: Result<u64, TapMintError>,
)
    requires
        mint_step(s0, who, key, true, now0, moved0, s1, Ok(redeemed_at)),
        now == redeemed_at + s1.cooldown_seconds,
        issue_step(s1, who, true, now, offset, s2, issued),
        mint_step(s2, who, derived_key(who, now, offset).key, true, now, true, s3, redeemed),
    ensures
        issued == Ok::<MintKeyView, TapMintError>(derived_key(who, now, offset)),
        redeemed == Ok::<u64, TapMintError>(now),
{
    assert(mint_refusal(s0, who, key, true, now0) is None);
    assert(s1.cooldowns[who] == redeemed_at);
    assert(access_refusal(s1, who, true, now) is None);
    assert(s2.keys[who] == derived_key(who, now, offset));
}

/// `initialize` succeeds at most once: after it has succeeded, calling it
/// again is refused with `AlreadyInitialized` whatever the arguments, and
/// nothing changes.
pub proof fn initialize_only_once(
    s0: ContractView,
    token0: Address,
    authenticated0: bool,
    funded0: bool,
    s1: ContractView,
    token1: Address,
    authenticated1: bool,
    funded1: bool,
    s2: ContractView,
    result: Result<(), TapMintError>,
)
    requires
        initialize_step(s0, token0, authenticated0, funded0, s1, Ok(())),
        initialize_step(s1, token1, authenticated1, funded1, s2, result),
    ensures
        result == Err::<(), TapMintError>(TapMintError::AlreadyInitialized),
        s2 == s1,
{
}

/// No operation undoes the setup: issuing a key and redeeming one leave an
/// authority that is set up in that state, with the same token contract and
/// the same parameters.
pub proof fn setup_is_permanent(
    pre: ContractView,
    who: Seq<char>,
    presented: i128,
    authenticated: bool,
    now: u64,
    offset: u64,
    moved: bool,
    after_issue: ContractView,
    issued: Result<MintKeyView, TapMintError>,
    after_mint: ContractView,
    redeemed: Result<u64, TapMintError>,
)
    requires
        pre.initialized,
        issue_step(pre, who, authenticated, now, offset, after_issue, issued),
        mint_step(pre, who, presented, authenticated, now, moved, after_mint, redeemed),
    ensures
        after_issue.initialized && after_issue.token == pre.token,
        after_mint.initialized && after_mint.token == pre.token,
        after_issue.cooldown_seconds == pre.cooldown_seconds && after_mint.cooldown_seconds
            == pre.cooldown_seconds,
        after_issue.mint_amount == pre.mint_amount && after_mint.mint_amount == pre.mint_amount,
        after_issue.offset_bound == pre.offset_bound && after_mint.offset_bound == pre.offset_bound,
{
}

/// Once the authority is set up, `initialize` is refused with
/// `AlreadyInitialized` whatever the arguments, and nothing changes.
pub proof fn initialize_after_setup_is_refused(
    pre: ContractView,
    token: Address,
    authenticated: bool,
    funded: bool,
    post: ContractView,
    result: Result<(), TapMintError>,
)
    requires
        pre.initialized,
        initialize_step(pre, token, authenticated, funded, post, result),
    ensures
        result == Err::<(), TapMintError>(TapMintError::AlreadyInitialized),
        post == pre,
{
}

/// Before the authority is set up, every operation but `initialize` is
/// refused with `NotInitialized`, and nothing changes.
pub proof fn nothing_before_initialize(
    pre: ContractView,
    who: Seq<char>,
    presented: i128,
    authenticated: bool,
    now: u64,
    offset: u64,
    moved: bool,
    reported: Option<i128>,
    after_issue: ContractView,
    issued: Result<MintKeyView, TapMintError>,
    after_mint: ContractView,
    redeemed: Result<u64, TapMintError>,
    held: Result<i128, TapMintError>,
)
    requires
        !pre.initialized,
        issue_step(pre, who, authenticated, now, offset, after_issue, issued),
        mint_step(pre, who, presented, authenticated, now, moved, after_mint, redeemed),
        balance_step(pre, reported, held),
    ensures
        issued == Err::<MintKeyView, TapMintError>(TapMintError::NotInitialized) && after_issue == pre,
        redeemed == Err::<u64, TapMintError>(TapMintError::NotInitialized) && after_mint == pre,
        held == Err::<i128, TapMintError>(TapMintError::NotInitialized),
{
}

/// A principal holds at most one key, and only the latest redeems: right
/// after a key is issued, a redemption succeeds exactly when the number of
/// that key is presented and the token contract pays out; it then clears
/// the key and starts the cooldown at the time of the redemption.
pub proof fn issued_key_redeems(
    s0: ContractView,
    who: Seq<char>,
    now1: u64,
    offset: u64,
    s1: ContractView,
    issued: MintKeyView,
    presented: i128,
    now2: u64,
    moved: bool,
    s2: ContractView,
    result: Result<u64, TapMintError>,
)
    requires
        issue_step(s0, who, true, now1, offset, s1, Ok(issued)),
        now1 <= now2,
        mint_step(s1, who, presented, true, now2, moved, s2, result),
    ensures
        result is Ok <==> presented == issued.key && moved,
        result is Ok ==> result == Ok::<u64, TapMintError>(now2) && !s2.keys.contains_key(who)
            && s2.cooldowns.contains_key(who) && s2.cooldowns[who] == now2,
        presented != issued.key ==> result == Err::<u64, TapMintError>(TapMintError::InvalidMintKey),
        result is Err ==> s2 == s1,
{
    assert(access_refusal(s0, who, true, now1) is None);
    assert(s1.keys[who] == issued);
    assert(key_matches(s1.keys, who, presented) <==> presented == issued.key);
}

/// A refused operation changes nothing, whatever the reason for the
/// refusal: the state after it is the state before it.
pub proof fn refused_steps_change_nothing(
    pre: ContractView,
    token: Address,
    who: Seq<char>,
    presented: i128,
    authenticated: bool,
    funded: bool,
    now: u64,
    offset: u64,
    moved: bool,
    after_initialize: ContractView,
    set_up: Result<(), TapMintError>,
    after_issue: ContractView,
    issued: Result<MintKeyView, TapMintError>,
    after_mint: ContractView,
    redeemed: Result<u64, TapMintError>,
)
    requires
        initialize_step(pre, token, authenticated, funded, after_initialize, set_up),
        issue_step(pre, who, authenticated, now, offset, after_issue, issued),
        mint_step(pre, who, presented, authenticated, now, moved, after_mint, redeemed),
    ensures
        set_up is Err ==> after_initialize == pre,
        issued is Err ==> after_issue == pre,
        redeemed is Err ==> after_mint == pre,
{
}

/// Principals do not get in each other's way: what `who` does leaves the
/// key and the cooldown of every other principal as they were, so that
/// whatever the other principal asks next is decided as before.
pub proof fn principals_do_not_interfere(
    pre: ContractView,
    who: Seq<char>,
    other: Seq<char>,
    presented: i128,
    authenticated: bool,
    now: u64,
    offset: u64,
    moved: bool,
    after_issue: ContractView,
    issued: Result<MintKeyView, TapMintError>,
    after_mint: ContractView,
    redeemed: Result<u64, TapMintError>,
)
    requires
        who != other,
        issue_step(pre, who, authenticated, now, offset, after_issue, issued),
        mint_step(pre, who, presented, authenticated, now, moved, after_mint, redeemed),
    ensures
        outstanding_key(after_issue.keys, other) == outstanding_key(pre.keys, other),
        outstanding_key(after_mint.keys, other) == outstanding_key(pre.keys, other),
        last_redemption(after_issue.cooldowns, other) == last_redemption(pre.cooldowns, other),
        last_redemption(after_mint.cooldowns, other) == last_redemption(pre.cooldowns, other),
        forall|key: i128, proved: bool, at: u64| #[trigger]
            mint_refusal(after_issue, other, key, proved, at) == mint_refusal(pre, other, key, proved, at),
        forall|key: i128, proved: bool, at: u64| #[trigger]
            mint_refusal(after_mint, other, key, proved, at) == mint_refusal(pre, other, key, proved, at),
{
}

/// Every step keeps the state well formed.
pub proof fn steps_keep_well_formed(
    pre: ContractView,
    token: Address,
    who: Seq<char>,
    presented: i128,
    authenticated: bool,
    funded: bool,
    now: u64,
    offset: u64,
    moved: bool,
    after_initialize: ContractView,
    set_up: Result<(), TapMintError>,
    after_issue: ContractView,
    issued: Result<MintKeyView, TapMintError>,
    after_mint: ContractView,
    redeemed: Result<u64, TapMintError>,
)
    requires
        pre.wf(),
        initialize_step(pre, token, authenticated, funded, after_initialize, set_up),
        issue_step(pre, who, authenticated, now, offset, after_issue, issued),
        mint_step(pre, who, presented, authenticated, now, moved, after_mint, redeemed),
    ensures
        after_initialize.wf(),
        after_issue.wf(),
        after_mint.wf(),
{
}

} // verus!
