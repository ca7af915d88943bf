//! The issuing authority: one state, and the operations that principals
//! invoke on it.
//!
//! Each operation comes in two forms. The form that takes an [`Env`] reads
//! the ledger clock and talks to the token contract itself; its contract
//! says that the outcome is the one laid down below for *some* reading and
//! *some* answer of the token contract. The form without an `Env` takes the
//! reading and the answer as arguments and has an exact contract.
//!
//! Neither form asks the host for what exists only while a contract runs.
//! The address under which the deployed contract holds its reserve and the
//! random draw for a key are arguments: the contract that embeds the
//! library reads the one from `Env::current_contract_address` and takes the
//! other from `Env::prng`, below [`Config::offset_bound`].
//!
//! A refusal leaves the authority as it was. A token contract that has
//! been asked may all the same have acted before it failed to answer, so on
//! `TransferFailure` the embedding contract has to abort its invocation and
//! let the host undo the whole of it.

use vstd::prelude::*;
use soroban_sdk::{Address, Env};
use crate::config::Config;
use crate::cooldown::{eligible_at, last_redemption, CooldownLedger};
use crate::error::TapMintError;
use crate::host::{
    address_is_contract, is_contract_address, ledger_timestamp, reported_balance, token_balance,
    token_transfer, transfer_completed, Principal, TransferOrder,
};
use crate::mint_key::{derived_key, generate_mint_key, MintKey, MintKeyView};
use crate::registry::{filed_by_player, key_matches, MintKeyRegistry};

verus! {

/// Names of the entries under which a deployment persists the state of the
/// authority.
#[derive(Clone, Copy, Debug, PartialEq, Eq, Structural)]
pub enum DataKey {
    /// Present once the authority is set up.
    Init,
    /// The cooldown ledger.
    PlayerMintTime,
    /// The mint-key registry.
    PlayerMintKey,
    /// The address of the token contract.
    TokenAddress,
}

/// The state of the authority as a mathematical value.
#[verifier::ext_equal]
pub struct ContractView {
    /// Whether `initialize` has succeeded.
    pub initialized: bool,
    /// The token contract, once set up.
    pub token: Option<Address>,
    /// For each principal that ever redeemed, the time of its latest redemption.
    pub cooldowns: Map<Seq<char>, u64>,
    /// For each principal that holds one, its outstanding key.
    pub keys: Map<Seq<char>, MintKeyView>,
    /// Seconds between two redemptions of one principal.
    pub cooldown_seconds: u64,
    /// Token units moved per redemption.
    pub mint_amount: u64,
    /// Exclusive upper bound of the random offset of a key.
    pub offset_bound: u64,
}

impl ContractView {
    /// What holds of every state of an authority: the token contract is
    /// known exactly when the authority is set up, nothing is on record
    /// before that, and each key is filed under the principal it names.
    pub open spec fn wf(self) -> bool {
        &&& self.initialized <==> self.token is Some
        &&& !self.initialized ==> self.cooldowns == Map::<Seq<char>, u64>::empty()
        &&& !self.initialized ==> self.keys == Map::<Seq<char>, MintKeyView>::empty()
        &&& filed_by_player(self.keys)
    }

    /// Whether the cooldown of `who` is over at time `now`.
    pub open spec fn eligible(self, who: Seq<char>, now: u64) -> bool {
        eligible_at(last_redemption(self.cooldowns, who), now, self.cooldown_seconds)
    }
}

/// The state of an authority that is not set up, with the parameters of `config`.
pub open spec fn fresh(config: Config) -> ContractView {
    ContractView {
        initialized: false,
        token: None,
        cooldowns: Map::empty(),
        keys: Map::empty(),
        cooldown_seconds: config.spec_cooldown_seconds(),
        mint_amount: config.spec_mint_amount(),
        offset_bound: config.spec_offset_bound(),
    }
}

/// Why `initialize` is refused, if it is: the authority is set up already,
/// or else the funding principal has not authorized the call, or else the
/// token contract did not move the initial supply (`funded` is false).
pub open spec fn initialize_refusal(
    pre: ContractView,
    authenticated: bool,
    funded: bool,
) -> Option<TapMintError> {
    if pre.initialized {
        Some(TapMintError::AlreadyInitialized)
    } else if !authenticated {
        Some(TapMintError::Unauthorized)
    } else if !funded {
        Some(TapMintError::TransferFailure)
    } else {
        None
    }
}

/// The state after a successful `initialize`: set up for `token`, with
/// nothing on record.
pub open spec fn after_initialize(pre: ContractView, token: Address) -> ContractView {
    ContractView {
        initialized: true,
        token: Some(token),
        cooldowns: Map::empty(),
        keys: Map::empty(),
        ..pre
    }
}

/// `initialize` as a relation between the state before, the inputs, the
/// state after and the result.
pub open spec fn initialize_step(
    pre: ContractView,
    token: Address,
    authenticated: bool,
    funded: bool,
    post: ContractView,
    result: Result<(), TapMintError>,
) -> bool {
    match initialize_refusal(pre, authenticated, funded) {
        Some(e) => result == Err::<(), TapMintError>(e) && post == pre,
        None => result == Ok::<(), TapMintError>(()) && post == after_initialize(pre, token),
    }
}

/// Why a principal may not act at time `now`, if it may not: the authority
/// is not set up, or else the caller is not authenticated as `who`, or else
/// the cooldown of `who` is still running.
pub open spec fn access_refusal(
    pre: ContractView,
    who: Seq<char>,
    authenticated: bool,
    now: u64,
) -> Option<TapMintError> {
    if !pre.initialized {
        Some(TapMintError::NotInitialized)
    } else if !authenticated {
        Some(TapMintError::Unauthorized)
    } else if !pre.eligible(who, now) {
        Some(TapMintError::CooldownActive)
    } else {
        None
    }
}

/// The state after `who` was issued a key at time `now` with the draw
/// `offset`: the key replaces whatever key `who` held.
pub open spec fn after_issue(
    pre: ContractView,
    who: Seq<char>,
    now: u64,
    offset: u64,
) -> ContractView {
    ContractView { keys: pre.keys.insert(who, derived_key(who, now, offset)), ..pre }
}

/// `get_mint_key` as a relation between the state before, the inputs, the
/// state after and the result.
pub open spec fn issue_step(
    pre: ContractView,
    who: Seq<char>,
    authenticated: bool,
    now: u64,
    offset: u64,
    post: ContractView,
    result: Result<MintKeyView, TapMintError>,
) -> bool {
    match access_refusal(pre, who, authenticated, now) {
        Some(e) => result == Err::<MintKeyView, TapMintError>(e) && post == pre,
        None => result == Ok::<MintKeyView, TapMintError>(derived_key(who, now, offset)) && post
            == after_issue(pre, who, now, offset),
    }
}

/// Why a redemption is refused before any token moves, if it is: for the
/// reasons of [`access_refusal`], or else because `presented` is not the
/// number of the key registered for `who`.
pub open spec fn mint_refusal(
    pre: ContractView,
    who: Seq<char>,
    presented: i128,
    authenticated: bool,
    now: u64,
) -> Option<TapMintError> {
    match access_refusal(pre, who, authenticated, now) {
        Some(e) => Some(e),
        None => if key_matches(pre.keys, who, presented) {
            None
        } else {
            Some(TapMintError::InvalidMintKey)
        },
    }
}

/// The state after `who` redeemed its key at time `now`: the key is gone
/// and the cooldown of `who` starts at `now`.
pub open spec fn after_redemption(pre: ContractView, who: Seq<char>, now: u64) -> ContractView {
    ContractView { keys: pre.keys.remove(who), cooldowns: pre.cooldowns.insert(who, now), ..pre }
}

/// `mint` as a relation between the state before, the inputs, the state
/// after and the result. `moved` says whether the token contract moved the
/// mint amount from the reserve to the principal.
pub open spec fn mint_step(
    pre: ContractView,
    who: Seq<char>,
    presented: i128,
    authenticated: bool,
    now: u64,
    moved: bool,
    post: ContractView,
    result: Result<u64, TapMintError>,
) -> bool {
    match mint_refusal(pre, who, presented, authenticated, now) {
        Some(e) => result == Err::<u64, TapMintError>(e) && post == pre,
        None => if moved {
            result == Ok::<u64, TapMintError>(now) && post == after_redemption(pre, who, now)
        } else {
            result == Err::<u64, TapMintError>(TapMintError::TransferFailure) && post == pre
        },
    }
}

/// `balance` as a relation between the state, the answer of the token
/// contract (`None`: it gave none) and the result.
pub open spec fn balance_step(
    state: ContractView,
    reported: Option<i128>,
    result: Result<i128, TapMintError>,
) -> bool {
    if !state.initialized {
        result == Err::<i128, TapMintError>(TapMintError::NotInitialized)
    } else {
        match reported {
            Some(amount) => result == Ok::<i128, TapMintError>(amount),
            None => result == Err::<i128, TapMintError>(TapMintError::TransferFailure),
        }
    }
}

/// A result that carries a key, with the key as a mathematical value.
pub open spec fn key_result(
    result: Result<MintKey, TapMintError>,
) -> Result<MintKeyView, TapMintError> {
    match result {
        Ok(issued) => Ok(issued@),
        Err(e) => Err(e),
    }
}

/// The notice that a deployment publishes for each redemption: the tag
/// `"Mint"`, the principal that redeemed and the amount it received.
#[derive(Debug, PartialEq, Eq)]
pub struct MintNotice {
    pub tag: &'static str,
    pub player: String,
    pub amount: u64,
}

/// What an authority holds once it is set up.
struct Books {
    token: Address,
    cooldowns: CooldownLedger,
    keys: MintKeyRegistry,
}

/// The issuing authority. Until `initialize` succeeds it holds nothing but
/// its parameters.
pub struct TapMintContract {
    config: Config,
    books: Option<Books>,
}

impl View for TapMintContract {
    type V = ContractView;

    closed spec fn view(&self) -> ContractView {
        match self.books {
            Some(books) => ContractView {
                initialized: true,
                token: Some(books.token),
                cooldowns: books.cooldowns@,
                keys: books.keys@,
                ..fresh(self.config)
            },
            None => fresh(self.config),
        }
    }
}

impl TapMintContract {
    /// An authority that is not set up yet.
    pub fn new(config: Config) -> (contract: TapMintContract)
        ensures
            contract@ == fresh(config),
            contract@.wf(),
            contract@.offset_bound > 0,
    {
        let _ = config.offset_bound();
        TapMintContract { config, books: None }
    }

    /// An authority that was set up earlier for the token contract at
    /// `token_address`, with the records it had when it was last stored.
    pub fn restore(
        config: Config,
        token_address: Address,
        cooldowns: CooldownLedger,
        keys: MintKeyRegistry,
    ) -> (contract: TapMintContract)
        ensures
            contract@ == (ContractView {
                initialized: true,
                token: Some(token_address),
                cooldowns: cooldowns@,
                keys: keys@,
                ..fresh(config)
            }),
            contract@.wf(),
            contract@.offset_bound > 0,
    {
        let _ = config.offset_bound();
        proof {
            keys.lemma_filed_by_player();
        }
        TapMintContract { config, books: Some(Books { token: token_address, cooldowns, keys }) }
    }

    /// The parameters of the deployment.
    pub fn config(&self) -> (config: Config)
        ensures
            config.spec_cooldown_seconds() == self@.cooldown_seconds,
            config.spec_mint_amount() == self@.mint_amount,
            config.spec_offset_bound() == self@.offset_bound,
            self@.offset_bound > 0,
    {
        let _ = self.config.offset_bound();
        self.config
    }

    /// Whether `initialize` has succeeded.
    pub fn is_initialized(&self) -> (set_up: bool)
        ensures
            set_up == self@.initialized,
    {
        self.books.is_some()
    }

    /// The address of the token contract, once the authority is set up.
    pub fn token_address(&self) -> (token: Option<&Address>)
        ensures
            match token {
                Some(address) => self@.token == Some(*address),
                None => self@.token is None,
            },
    {
        match &self.books {
            Some(books) => Some(&books.token),
            None => None,
        }
    }

    /// The cooldown ledger, once the authority is set up.
    pub fn cooldowns(&self) -> (ledger: Option<&CooldownLedger>)
        ensures
            ledger is Some <==> self@.initialized,
            ledger matches Some(l) ==> l@ == self@.cooldowns,
    {
        match &self.books {
            Some(books) => Some(&books.cooldowns),
            None => None,
        }
    }

    /// The mint-key registry, once the authority is set up.
    pub fn mint_keys(&self) -> (registry: Option<&MintKeyRegistry>)
        ensures
            registry is Some <==> self@.initialized,
            registry matches Some(r) ==> r@ == self@.keys,
    {
        match &self.books {
            Some(books) => Some(&books.keys),
            None => None,
        }
    }

    /// Whether the cooldown of `player_pub_key` is over at time `now`: it
    /// never redeemed, or its latest redemption lies at least one cooldown
    /// back.
    pub fn is_cooldown_over(&self, player_pub_key: &String, now: u64) -> (over: bool)
        ensures
            over == self@.eligible(player_pub_key@, now),
    {
        match &self.books {
            Some(books) => books.cooldowns.is_eligible(player_pub_key, now, self.config.cooldown_seconds()),
            None => true,
        }
    }

    /// Whether `key` is the number of the key registered for `player_pub_key`.
    pub fn is_mint_key_valid(&self, player_pub_key: &String, key: i128) -> (valid: bool)
        ensures
            valid == key_matches(self@.keys, player_pub_key@, key),
    {
        match &self.books {
            Some(books) => books.keys.validate(player_pub_key, key),
            None => false,
        }
    }

    /// Decides whether `initialize` may go ahead and ask the token contract
    /// for the initial supply.
    pub fn check_initialize(&self, authenticated: bool) -> (verdict: Result<(), TapMintError>)
        ensures
            verdict == match initialize_refusal(self@, authenticated, true) {
                Some(e) => Err::<(), TapMintError>(e),
                None => Ok::<(), TapMintError>(()),
            },
    {
        if self.books.is_some() {
            Err(TapMintError::AlreadyInitialized)
        } else if !authenticated {
            Err(TapMintError::Unauthorized)
        } else {
            Ok(())
        }
    }

    /// Decides whether `player_pub_key` may be issued a key at time `now`.
    pub fn check_get_mint_key(
        &self,
        player_pub_key: &String,
        authenticated: bool,
        now: u64,
    ) -> (verdict: Result<(), TapMintError>)
        ensures
            verdict == match access_refusal(self@, player_pub_key@, authenticated, now) {
                Some(e) => Err::<(), TapMintError>(e),
                None => Ok::<(), TapMintError>(()),
            },
    {
        if !self.is_initialized() {
            Err(TapMintError::NotInitialized)
        } else if !authenticated {
            Err(TapMintError::Unauthorized)
        } else if !self.is_cooldown_over(player_pub_key, now) {
            Err(TapMintError::CooldownActive)
        } else {
            Ok(())
        }
    }

    /// Decides whether a redemption may go ahead and ask the token contract
    /// to pay out.
    pub fn check_mint(
        &self,
        player_pub_key: &String,
        mint_key: i128,
        authenticated: bool,
        now: u64,
    ) -> (verdict: Result<(), TapMintError>)
        ensures
            verdict == match mint_refusal(self@, player_pub_key@, mint_key, authenticated, now) {
                Some(e) => Err::<(), TapMintError>(e),
                None => Ok::<(), TapMintError>(()),
            },
    {
        match self.check_get_mint_key(player_pub_key, authenticated, now) {
            Err(e) => Err(e),
            Ok(()) => if self.is_mint_key_valid(player_pub_key, mint_key) {
                Ok(())
            } else {
                Err(TapMintError::InvalidMintKey)
            },
        }
    }

    /// The transfer that `initialize` asks of the token contract: the
    /// initial supply, from the funding principal into the reserve.
    pub fn funding_order<'a>(
        token_address: &'a Address,
        from: &'a Address,
        reserve: &'a Address,
        mint_supply: i128,
    ) -> (order: TransferOrder<'a>)
        ensures
            *order.token == *token_address,
            *order.from == *from,
            *order.to == *reserve,
            order.amount == mint_supply,
    {
        TransferOrder { token: token_address, from, to: reserve, amount: mint_supply }
    }

    /// The transfer that a redemption asks of the token contract: the mint
    /// amount, from the reserve to the principal. An authority that is not
    /// set up has no token contract to ask.
    pub fn payout_order<'a>(&'a self, reserve: &'a Address, to: &'a Address) -> (order: Option<
        TransferOrder<'a>,
    >)
        ensures
            order is Some <==> self@.initialized,
            order matches Some(o) ==> {
                &&& self@.token == Some(*o.token)
                &&& *o.from == *reserve
                &&& *o.to == *to
                &&& o.amount == self@.mint_amount
            },
    {
        match &self.books {
            Some(books) => {
                let amount: i128 = self.config.mint_amount() as i128;
                Some(TransferOrder { token: &books.token, from: reserve, to, amount })
            },
            None => None,
        }
    }

    /// Sets the authority up for the token contract at `token_address`,
    /// given whether the funding principal authorized the call and whether
    /// the token contract moved the initial supply into the reserve.
    pub fn initialize_funded(
        &mut self,
        token_address: Address,
        authenticated: bool,
        funded: bool,
    ) -> (result: Result<(), TapMintError>)
        ensures
            initialize_step(old(self)@, token_address, authenticated, funded, final(self)@, result),
            final(self)@.wf(),
    {
        match self.check_initialize(authenticated) {
            Err(e) => {
                proof {
                    self.lemma_wf();
                }
                Err(e)
            },
            Ok(()) => if !funded {
                proof {
                    self.lemma_wf();
                }
                Err(TapMintError::TransferFailure)
            } else {
                self.books = Some(
                    Books { token: token_address, cooldowns: CooldownLedger::new(), keys: MintKeyRegistry::new() },
                );
                assert(self@ =~= after_initialize(old(self)@, token_address));
                Ok(())
            },
        }
    }

    /// Issues `player_pub_key` a key at time `now` from the draw `offset`,
    /// in place of any key it held, unless access is refused.
    pub fn get_mint_key_at(
        &mut self,
        player_pub_key: &String,
        authenticated: bool,
        now: u64,
        offset: u64,
    ) -> (result: Result<MintKey, TapMintError>)
        requires
            offset < old(self)@.offset_bound,
        ensures
            issue_step(old(self)@, player_pub_key@, authenticated, now, offset, final(self)@, key_result(result)),
            final(self)@.wf(),
    {
        proof {
            self.lemma_wf();
        }
        match self.check_get_mint_key(player_pub_key, authenticated, now) {
            Err(e) => Err(e),
            Ok(()) => {
                let issued = generate_mint_key(player_pub_key, now, offset);
                let copy = issued.clone();
                match &mut self.books {
                    Some(books) => {
                        books.keys.issue(issued);
                    },
                    None => {},
                }
                proof {
                    assert(self@ =~= after_issue(old(self)@, player_pub_key@, now, offset));
                    self.lemma_wf();
                }
                Ok(copy)
            },
        }
    }

    /// Redeems the key `mint_key` of `player_pub_key` at time `now`, given
    /// whether the token contract paid out: the key is cleared and the
    /// cooldown starts, unless the redemption is refused or nothing was paid.
    pub fn mint_at(
        &mut self,
        player_pub_key: &String,
        mint_key: i128,
        authenticated: bool,
        now: u64,
        moved: bool,
    ) -> (result: Result<u64, TapMintError>)
        ensures
            mint_step(old(self)@, player_pub_key@, mint_key, authenticated, now, moved, final(self)@, result),
            final(self)@.wf(),
    {
        proof {
            self.lemma_wf();
        }
        match self.check_mint(player_pub_key, mint_key, authenticated, now) {
            Err(e) => Err(e),
            Ok(()) => if !moved {
                Err(TapMintError::TransferFailure)
            } else {
                match &mut self.books {
                    Some(books) => {
                        books.keys.clear(player_pub_key);
                        books.cooldowns.record_redemption(player_pub_key, now);
                    },
                    None => {},
                }
                proof {
                    assert(self@ =~= after_redemption(old(self)@, player_pub_key@, now));
                    self.lemma_wf();
                }
                Ok(now)
            },
        }
    }

    /// The notice to publish once `player_pub_key` has redeemed a key.
    pub fn mint_notice(&self, player_pub_key: &String) -> (notice: MintNotice)
        ensures
            notice.tag@ == "Mint"@,
            notice.player@ == player_pub_key@,
            notice.amount == self@.mint_amount,
    {
        MintNotice { tag: "Mint", player: player_pub_key.clone(), amount: self.config.mint_amount() }
    }

    /// Answers a balance query with what the token contract reported.
    pub fn balance_reported(&self, reported: Option<i128>) -> (result: Result<i128, TapMintError>)
        ensures
            balance_step(self@, reported, result),
    {
        if !self.is_initialized() {
            Err(TapMintError::NotInitialized)
        } else {
            match reported {
                Some(amount) => Ok(amount),
                None => Err(TapMintError::TransferFailure),
            }
        }
    }

    /// Sets the authority up: asks the token contract at `token_address` to
    /// move `mint_supply` from `from` into the reserve, and on success
    /// records the token contract and starts with nothing on record.
    /// `reserve` is the address under which the deployed contract holds its
    /// tokens, and `authenticated` says whether `from` has authorized the
    /// call.
    ///
    /// The token contract is asked only where the call is not refused for
    /// another reason and `token_address` is the address of a contract; an
    /// address of another kind cannot be asked and counts as a transfer
    /// that was not made. The outcome is that of [`initialize_step`] for the
    /// answer that the token contract gave.
    ///
    /// On `TransferFailure` the caller has to abort the invocation, so that
    /// the host undoes whatever the token contract did.
    pub fn initialize(
        &mut self,
        env: &Env,
        reserve: &Address,
        from: &Address,
        mint_supply: i128,
        token_address: Address,
        authenticated: bool,
    ) -> (result: Result<(), TapMintError>)
        ensures
            exists|funded: bool| #[trigger]
                initialize_step(old(self)@, token_address, authenticated, funded, final(self)@, result),
            old(self)@.initialized ==> result == Err::<(), TapMintError>(
                TapMintError::AlreadyInitialized,
            ),
            !old(self)@.initialized && !authenticated ==> result == Err::<(), TapMintError>(
                TapMintError::Unauthorized,
            ),
            !old(self)@.initialized && authenticated && !is_contract_address(token_address)
                ==> result == Err::<(), TapMintError>(TapMintError::TransferFailure),
            result is Err ==> final(self)@ == old(self)@,
            result is Ok ==> final(self)@ == after_initialize(old(self)@, token_address),
            final(self)@.wf(),
    {
        match self.check_initialize(authenticated) {
            Err(e) => {
                proof {
                    self.lemma_wf();
                    assert(initialize_step(self@, token_address, authenticated, false, self@, Err(e)));
                }
                Err(e)
            },
            Ok(()) => {
                let funded = if address_is_contract(&token_address) {
                    let order = Self::funding_order(&token_address, from, reserve, mint_supply);
                    let answer = token_transfer(env, &order);
                    transfer_completed(&answer)
                } else {
                    false
                };
                self.initialize_funded(token_address, authenticated, funded)
            },
        }
    }

    /// Issues `player` a fresh key, in place of any key it held. The key is
    /// the reading of the ledger clock plus `offset`, the draw that the
    /// caller took from its source of randomness below the offset bound.
    /// `authenticated` says whether the caller has proved to be `player`.
    ///
    /// The outcome is that of [`issue_step`] for the reading that the host
    /// gave.
    pub fn get_mint_key(
        &mut self,
        env: &Env,
        player: &Principal,
        authenticated: bool,
        offset: u64,
    ) -> (result: Result<MintKey, TapMintError>)
        requires
            offset < old(self)@.offset_bound,
        ensures
            exists|now: u64| #[trigger]
                issue_step(
                    old(self)@,
                    player@.name,
                    authenticated,
                    now,
                    offset,
                    final(self)@,
                    key_result(result),
                ),
            !old(self)@.initialized ==> result == Err::<MintKey, TapMintError>(
                TapMintError::NotInitialized,
            ),
            old(self)@.initialized && !authenticated ==> result == Err::<MintKey, TapMintError>(
                TapMintError::Unauthorized,
            ),
            old(self)@.initialized && authenticated && !old(self)@.cooldowns.contains_key(player@.name)
                ==> result is Ok,
            result is Err ==> final(self)@ == old(self)@,
            result matches Ok(issued) ==> {
                &&& issued@.player == player@.name
                &&& issued@.key == issued@.generated_at + offset
                &&& final(self)@ == (ContractView {
                    keys: old(self)@.keys.insert(player@.name, issued@),
                    ..old(self)@
                })
            },
            final(self)@.wf(),
    {
        let now = ledger_timestamp(env);
        self.get_mint_key_at(player.name(), authenticated, now, offset)
    }

    /// Redeems the key `mint_key` of `player`: asks the token contract to
    /// move the mint amount from the reserve to the address of `player`, and
    /// on success clears the key, starts the cooldown at the reading of the
    /// ledger clock and returns that reading. `reserve` is the address
    /// under which the deployed contract holds its tokens, and
    /// `authenticated` says whether the caller has proved to be `player`.
    ///
    /// The token contract is asked only where the redemption is not refused
    /// for another reason and the token address is the address of a
    /// contract. The outcome is that of [`mint_step`] for the reading that
    /// the host gave and the answer that the token contract gave.
    ///
    /// On `TransferFailure` the caller has to abort the invocation, so that
    /// the host undoes whatever the token contract did.
    pub fn mint(
        &mut self,
        env: &Env,
        reserve: &Address,
        player: &Principal,
        mint_key: i128,
        authenticated: bool,
    ) -> (result: Result<u64, TapMintError>)
        ensures
            exists|now: u64, moved: bool| #[trigger]
                mint_step(old(self)@, player@.name, mint_key, authenticated, now, moved, final(self)@, result),
            !old(self)@.initialized ==> result == Err::<u64, TapMintError>(
                TapMintError::NotInitialized,
            ),
            old(self)@.initialized && !authenticated ==> result == Err::<u64, TapMintError>(
                TapMintError::Unauthorized,
            ),
            !key_matches(old(self)@.keys, player@.name, mint_key) ==> result is Err,
            old(self)@.token matches Some(token) && !is_contract_address(token) ==> result is Err,
            result is Err ==> final(self)@ == old(self)@,
            result matches Ok(now) ==> {
                &&& mint_refusal(old(self)@, player@.name, mint_key, authenticated, now) is None
                &&& final(self)@ == after_redemption(old(self)@, player@.name, now)
            },
            final(self)@.wf(),
    {
        let now = ledger_timestamp(env);
        match self.check_mint(player.name(), mint_key, authenticated, now) {
            Err(e) => {
                proof {
                    self.lemma_wf();
                    assert(mint_step(self@, player@.name, mint_key, authenticated, now, false, self@, Err(e)));
                }
                Err(e)
            },
            Ok(()) => {
                let moved = match self.payout_order(reserve, player.address()) {
                    Some(order) => {
                        if address_is_contract(order.token) {
                            let answer = token_transfer(env, &order);
                            transfer_completed(&answer)
                        } else {
                            false
                        }
                    },
                    None => false,
                };
                self.mint_at(player.name(), mint_key, authenticated, now, moved)
            },
        }
    }

    /// The balance that the token contract reports for `address`.
    ///
    /// An authority that is not set up asks nothing, and neither does one
    /// whose token address is no address of a contract: such an address
    /// cannot be asked and counts as a token contract that gave no answer.
    /// The outcome is that of [`balance_step`] for the answer that the token
    /// contract gave.
    pub fn balance(&self, env: &Env, address: &Address) -> (result: Result<i128, TapMintError>)
        ensures
            exists|reported: Option<i128>| #[trigger] balance_step(self@, reported, result),
            !self@.initialized <==> result == Err::<i128, TapMintError>(TapMintError::NotInitialized),
            self@.token matches Some(token) && !is_contract_address(token) ==> result == Err::<
                i128,
                TapMintError,
            >(TapMintError::TransferFailure),
    {
        match &self.books {
            None => {
                assert(balance_step(self@, None, Err(TapMintError::NotInitialized)));
                Err(TapMintError::NotInitialized)
            },
            Some(books) => {
                let reported = if address_is_contract(&books.token) {
                    let answer = token_balance(env, &books.token, address);
                    reported_balance(&answer)
                } else {
                    None
                };
                self.balance_reported(reported)
            },
        }
    }

    /// Every state of an authority is well formed.
    pub proof fn lemma_wf(self)
        ensures
            self@.wf(),
    {
        match self.books {
            Some(books) => {
                books.keys.lemma_filed_by_player();
            },
            None => {},
        }
    }
}

} // verus!
