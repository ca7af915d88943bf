//! The operations of the authority, run against the Soroban test host with a
//! Stellar asset contract as the token.

use soroban_sdk::testutils::{Address as _, ContractFunctionSet, EnvTestConfig, Ledger as _};
use soroban_sdk::token::{StellarAssetClient, TokenClient};
use soroban_sdk::{Address, Env, Val};
use tapmint::config::{DEFAULT_COOLDOWN_SECONDS, DEFAULT_MINT_AMOUNT, DEFAULT_OFFSET_BOUND};
use tapmint::host::Principal;
use tapmint::{Config, CooldownLedger, MintKey, MintKeyRegistry, TapMintContract, TapMintError};

const MINT_COOLDOWN_SECONDS: u64 = DEFAULT_COOLDOWN_SECONDS;
const MINT_AMOUNT: u64 = DEFAULT_MINT_AMOUNT;

/// Stands for the deployed contract: it has an address of its own to hold the
/// reserve under, and an invocation in which the host's generator can be
/// asked for the draw of a key.
struct Deployed;

impl ContractFunctionSet for Deployed {
    fn call(&self, _func: &str, _env: Env, _args: &[Val]) -> Option<Val> {
        None
    }
}

fn create_token_contract<'a>(
    e: &Env,
    admin: &Address,
) -> (Address, TokenClient<'a>, StellarAssetClient<'a>) {
    let contract_address = e.register_stellar_asset_contract_v2(admin.clone()).address();
    (
        contract_address.clone(),
        TokenClient::new(e, &contract_address),
        StellarAssetClient::new(e, &contract_address),
    )
}

struct TapMintTest<'a> {
    env: Env,
    token_id: Address,
    token_client: TokenClient<'a>,
    token_distributor: Address,
    contract: TapMintContract,
    address: Address,
    player1: Address,
}

impl<'a> TapMintTest<'a> {
    fn setup(init_contract: bool) -> Self {
        Self::setup_with(Config::default(), 1000, init_contract)
    }

    fn setup_with(config: Config, mint_supply: i128, init_contract: bool) -> Self {
        let env = Env::new_with_config(EnvTestConfig { capture_snapshot_at_drop: false });
        env.mock_all_auths_allowing_non_root_auth();

        let token_admin = Address::generate(&env);
        let token_distributor: Address = Address::generate(&env);
        let player1 = Address::generate(&env);

        let (token_id, token_client, token_admin_client) =
            create_token_contract(&env, &token_admin);
        token_admin_client.mint(&token_distributor, &1000);

        let address = env.register(Deployed, ());
        let contract = TapMintContract::new(config);
        let mut test = TapMintTest {
            env,
            token_id,
            token_client,
            token_distributor,
            contract,
            address,
            player1,
        };
        if init_contract {
            assert_eq!(test.initialize(mint_supply, true), Ok(()));
            assert_eq!(test.token_client.balance(&test.address), mint_supply);
        }
        test
    }

    fn initialize(&mut self, mint_supply: i128, authenticated: bool) -> Result<(), TapMintError> {
        self.env.as_contract(&self.address, || {
            self.contract.initialize(
                &self.env,
                &self.address,
                &self.token_distributor,
                mint_supply,
                self.token_id.clone(),
                authenticated,
            )
        })
    }

    fn get_mint_key(&mut self) -> Result<MintKey, TapMintError> {
        self.get_mint_key_for(&self.player1.clone(), true)
    }

    fn get_mint_key_for(&mut self, player: &Address, authenticated: bool) -> Result<MintKey, TapMintError> {
        let player = Principal::of(player.clone());
        let bound = self.contract.config().offset_bound();
        self.env.as_contract(&self.address, || {
            let pseudo_random: u64 = self.env.prng().gen_range(0..bound);
            self.contract.get_mint_key(&self.env, &player, authenticated, pseudo_random)
        })
    }

    fn mint(&mut self, mint_key: i128) -> Result<u64, TapMintError> {
        self.mint_for(&self.player1.clone(), mint_key, true)
    }

    fn mint_for(&mut self, player: &Address, mint_key: i128, authenticated: bool) -> Result<u64, TapMintError> {
        let player = Principal::of(player.clone());
        self.env.as_contract(&self.address, || {
            self.contract.mint(&self.env, &self.address, &player, mint_key, authenticated)
        })
    }

    fn balance(&self, address: &Address) -> Result<i128, TapMintError> {
        self.env.as_contract(&self.address, || self.contract.balance(&self.env, address))
    }

    fn advance(&self, seconds: u64) {
        let new_timestamp = self.env.ledger().timestamp() + seconds;
        self.env.ledger().set_timestamp(new_timestamp);
    }
}

/// Test the initialization of the TapMint contract.
/// This test verifies that the contract is correctly initialized with the expected token balance.
#[test]
fn test_initialize() {
    let test = TapMintTest::setup(true);
    assert_eq!(test.token_client.balance(&test.address), 1000);
}

/// Test the minting functionality of the TapMint contract.
/// This test checks if:
/// 1. A player can successfully mint tokens
/// 2. The correct amount of tokens is minted
/// 3. The player can mint again after the cooldown period
#[test]
fn test_mint() {
    let mut test = TapMintTest::setup(true);
    let mint_key = test.get_mint_key().unwrap();
    let mint_time = test.mint(mint_key.key).unwrap();

    // Check if the correct amount of tokens was minted
    assert_eq!(test.token_client.balance(&test.player1), MINT_AMOUNT as i128);

    // Simulate time passing beyond the cooldown period
    let new_timestamp = test.env.ledger().timestamp() + MINT_COOLDOWN_SECONDS + 1000;
    test.env.ledger().set_timestamp(new_timestamp);
    test.env.ledger().set_sequence_number(10);

    // Mint again after cooldown
    let new_mint_key = test.get_mint_key().unwrap();
    let new_mint_time = test.mint(new_mint_key.key).unwrap();
    assert!(new_mint_time > mint_time);
    assert_eq!(test.token_client.balance(&test.player1), (MINT_AMOUNT * 2) as i128);
}

/// Test minting with an invalid key.
/// This test verifies that the contract correctly rejects minting attempts with an invalid key.
#[test]
fn test_mint_invalid_key() {
    let mut test = TapMintTest::setup(true);
    let invalid_key: i128 = 12345;
    let refused = test.mint(invalid_key);
    assert_eq!(refused, Err(TapMintError::InvalidMintKey));
    assert_eq!(refused.unwrap_err().message(), "Invalid mint key");
    assert_eq!(test.token_client.balance(&test.player1), 0);
}

/// Test minting before the cooldown period has elapsed.
/// This test ensures that the contract prevents players from minting tokens too frequently.
#[test]
fn test_mint_before_cooldown() {
    let mut test = TapMintTest::setup(true);
    let mint_key = test.get_mint_key().unwrap();
    test.mint(mint_key.key).unwrap();
    // Immediately try to mint again at the same timestamp
    let refused = test.mint(mint_key.key);
    assert_eq!(refused, Err(TapMintError::CooldownActive));
    assert_eq!(refused.unwrap_err().message(), "Mint cooldown not over for player");
    assert_eq!(test.token_client.balance(&test.player1), MINT_AMOUNT as i128);
}

/// Test minting when the contract is not initialized.
/// This test verifies that the contract correctly prevents minting when it hasn't been initialized.
#[test]
fn test_mint_uninitialized() {
    let mut test = TapMintTest::setup(false);
    let refused = test.get_mint_key();
    assert_eq!(refused, Err(TapMintError::NotInitialized));
    assert_eq!(refused.unwrap_err().message(), "Contract is not yet initialized");
    assert_eq!(test.mint(999999), Err(TapMintError::NotInitialized));
}

#[test]
fn every_operation_before_initialize_is_refused() {
    let mut test = TapMintTest::setup(false);
    assert!(!test.contract.is_initialized());
    assert_eq!(test.get_mint_key(), Err(TapMintError::NotInitialized));
    assert_eq!(test.mint(999999), Err(TapMintError::NotInitialized));
    assert_eq!(test.balance(&test.player1), Err(TapMintError::NotInitialized));
    assert!(!test.contract.is_initialized());
    assert!(test.contract.token_address().is_none());
    assert_eq!(test.token_client.balance(&test.token_distributor), 1000);
}

#[test]
fn mint_without_prior_key_fails_with_invalid_mint_key() {
    let mut test = TapMintTest::setup(true);
    assert_eq!(test.mint(999999), Err(TapMintError::InvalidMintKey));
    assert_eq!(test.token_client.balance(&test.player1), 0);
    assert_eq!(test.token_client.balance(&test.address), 1000);
}

#[test]
fn faucet_scenario_from_funding_to_second_redemption() {
    let mut test = TapMintTest::setup(true);
    test.env.ledger().set_timestamp(5_000);
    assert_eq!(test.balance(&test.address), Ok(1000));

    let k1 = test.get_mint_key().unwrap();
    assert_eq!(k1.generated_at, 5_000);
    let redeemed_at = test.mint(k1.key).unwrap();
    assert_eq!(redeemed_at, 5_000);
    assert_eq!(test.balance(&test.player1), Ok(20));
    assert_eq!(test.balance(&test.address), Ok(980));

    // The cooldown is looked at before the key, so an immediate repeat is
    // turned away for the cooldown.
    assert_eq!(test.mint(k1.key), Err(TapMintError::CooldownActive));

    test.advance(MINT_COOLDOWN_SECONDS + 1);
    // Once the cooldown is over the spent key shows as what it is.
    assert_eq!(test.mint(k1.key), Err(TapMintError::InvalidMintKey));
    let k2 = test.get_mint_key().unwrap();
    assert_eq!(k2.generated_at, 5_000 + MINT_COOLDOWN_SECONDS + 1);
    assert_eq!(test.mint(k2.key), Ok(5_000 + MINT_COOLDOWN_SECONDS + 1));
    assert_eq!(test.balance(&test.player1), Ok(40));
    assert_eq!(test.balance(&test.address), Ok(960));
}

#[test]
fn without_cooldown_an_immediate_repeat_fails_with_invalid_mint_key() {
    let config = Config::new(0, 20, 10000).unwrap();
    let mut test = TapMintTest::setup_with(config, 1000, true);
    let k1 = test.get_mint_key().unwrap();
    assert!(test.mint(k1.key).is_ok());
    assert_eq!(test.balance(&test.player1), Ok(20));
    assert_eq!(test.balance(&test.address), Ok(980));
    assert_eq!(test.mint(k1.key), Err(TapMintError::InvalidMintKey));
    assert_eq!(test.balance(&test.player1), Ok(20));
}

#[test]
fn second_initialize_fails_with_already_initialized() {
    let mut test = TapMintTest::setup(true);
    let refused = test.initialize(0, true);
    assert_eq!(refused, Err(TapMintError::AlreadyInitialized));
    assert_eq!(refused.unwrap_err().message(), "Contract has already been initialized");
    assert_eq!(test.initialize(1000, false), Err(TapMintError::AlreadyInitialized));
    assert_eq!(test.contract.token_address(), Some(&test.token_id));
    assert_eq!(test.token_client.balance(&test.address), 1000);
}

#[test]
fn initialize_without_authorization_is_unauthorized() {
    let mut test = TapMintTest::setup(false);
    assert_eq!(test.initialize(1000, false), Err(TapMintError::Unauthorized));
    assert!(!test.contract.is_initialized());
    assert_eq!(test.token_client.balance(&test.token_distributor), 1000);
    assert_eq!(test.token_client.balance(&test.address), 0);
}

#[test]
fn initialize_that_cannot_be_funded_is_a_transfer_failure() {
    let mut test = TapMintTest::setup(false);
    // The distributor holds 1000 units only.
    assert_eq!(test.initialize(1001, true), Err(TapMintError::TransferFailure));
    assert!(!test.contract.is_initialized());
    assert_eq!(test.get_mint_key(), Err(TapMintError::NotInitialized));
    assert_eq!(test.token_client.balance(&test.token_distributor), 1000);
    // A later attempt that can be funded goes through.
    assert_eq!(test.initialize(1000, true), Ok(()));
    assert_eq!(test.token_client.balance(&test.address), 1000);
    assert_eq!(test.token_client.balance(&test.token_distributor), 0);
}

#[test]
fn initialize_with_negative_supply_is_a_transfer_failure() {
    let mut test = TapMintTest::setup(false);
    assert_eq!(test.initialize(-1, true), Err(TapMintError::TransferFailure));
    assert!(!test.contract.is_initialized());
}

#[test]
fn mint_from_an_empty_reserve_is_a_transfer_failure_and_keeps_the_key() {
    let mut test = TapMintTest::setup_with(Config::default(), 30, true);
    let k1 = test.get_mint_key().unwrap();
    assert!(test.mint(k1.key).is_ok());
    assert_eq!(test.token_client.balance(&test.address), 10);

    test.advance(MINT_COOLDOWN_SECONDS);
    let k2 = test.get_mint_key().unwrap();
    let refused = test.mint(k2.key);
    assert_eq!(refused, Err(TapMintError::TransferFailure));
    assert_eq!(test.token_client.balance(&test.address), 10);
    assert_eq!(test.token_client.balance(&test.player1), 20);
    // Nothing was recorded: the key is still registered and no new cooldown began.
    let player = Principal::of(test.player1.clone());
    assert!(test.contract.is_mint_key_valid(player.name(), k2.key));
    let now = test.env.ledger().timestamp();
    assert!(test.contract.is_cooldown_over(player.name(), now));
}

#[test]
fn unauthenticated_callers_are_unauthorized() {
    let mut test = TapMintTest::setup(true);
    let player1 = test.player1.clone();
    let refused = test.get_mint_key_for(&player1, false);
    assert_eq!(refused, Err(TapMintError::Unauthorized));
    let key = test.get_mint_key().unwrap();
    assert_eq!(test.mint_for(&player1, key.key, false), Err(TapMintError::Unauthorized));
    assert_eq!(test.token_client.balance(&test.player1), 0);
    // The key is untouched and still redeems.
    assert!(test.mint(key.key).is_ok());
}

#[test]
fn second_key_replaces_the_first() {
    let mut test = TapMintTest::setup(true);
    test.env.ledger().set_timestamp(100);
    let first = test.get_mint_key().unwrap();
    test.env.ledger().set_timestamp(20_000);
    let second = test.get_mint_key().unwrap();
    assert_ne!(first.key, second.key);
    assert_eq!(test.mint(first.key), Err(TapMintError::InvalidMintKey));
    assert_eq!(test.token_client.balance(&test.player1), 0);
    assert_eq!(test.mint(second.key), Ok(20_000));
    assert_eq!(test.token_client.balance(&test.player1), 20);
}

#[test]
fn cooldown_is_active_until_exactly_its_last_second() {
    let mut test = TapMintTest::setup(true);
    test.env.ledger().set_timestamp(1_000);
    let key = test.get_mint_key().unwrap();
    assert_eq!(test.mint(key.key), Ok(1_000));

    test.env.ledger().set_timestamp(1_000 + MINT_COOLDOWN_SECONDS - 1);
    assert_eq!(test.get_mint_key(), Err(TapMintError::CooldownActive));
    assert_eq!(test.mint(key.key), Err(TapMintError::CooldownActive));
    assert_eq!(test.mint(0), Err(TapMintError::CooldownActive));

    test.env.ledger().set_timestamp(1_000 + MINT_COOLDOWN_SECONDS);
    let next = test.get_mint_key().unwrap();
    assert_eq!(next.generated_at, 1_180);
    assert_eq!(test.mint(next.key), Ok(1_180));
    assert_eq!(test.token_client.balance(&test.player1), 40);
}

#[test]
fn cooldown_of_one_principal_does_not_hold_back_another() {
    let mut test = TapMintTest::setup(true);
    let player2 = Address::generate(&test.env);
    let key1 = test.get_mint_key().unwrap();
    assert!(test.mint(key1.key).is_ok());
    let key2 = test.get_mint_key_for(&player2, true).unwrap();
    // A key is bound to the principal it was issued to.
    assert_eq!(test.get_mint_key(), Err(TapMintError::CooldownActive));
    assert!(test.mint_for(&player2, key2.key, true).is_ok());
    assert_eq!(test.token_client.balance(&player2), 20);
    assert_eq!(test.token_client.balance(&test.address), 960);
}

#[test]
fn key_of_another_principal_is_invalid() {
    let mut test = TapMintTest::setup(true);
    let player2 = Address::generate(&test.env);
    test.env.ledger().set_timestamp(50_000);
    let key1 = test.get_mint_key().unwrap();
    assert_eq!(test.mint_for(&player2, key1.key, true), Err(TapMintError::InvalidMintKey));
    assert_eq!(test.token_client.balance(&player2), 0);
    assert_eq!(test.mint(key1.key), Ok(50_000));
}

#[test]
fn issued_key_is_clock_plus_an_offset_below_the_bound() {
    let mut test = TapMintTest::setup(true);
    let mut at: u64 = 7_000_000;
    for _ in 0..20 {
        test.env.ledger().set_timestamp(at);
        let key = test.get_mint_key().unwrap();
        assert_eq!(key.generated_at, at);
        assert!(key.key >= at as i128);
        assert!(key.key < (at + DEFAULT_OFFSET_BOUND) as i128);
        at += 1;
    }
}

#[test]
fn offset_bound_of_one_leaves_only_the_clock() {
    let config = Config::new(180, 20, 1).unwrap();
    let mut test = TapMintTest::setup_with(config, 1000, true);
    test.env.ledger().set_timestamp(4_242);
    let key = test.get_mint_key().unwrap();
    assert_eq!(key.key, 4_242);
    assert_eq!(key.generated_at, 4_242);
}

#[test]
fn offsets_stay_below_a_small_bound() {
    let config = Config::new(0, 20, 3).unwrap();
    let mut test = TapMintTest::setup_with(config, 1000, true);
    test.env.ledger().set_timestamp(10);
    for _ in 0..40 {
        let key = test.get_mint_key().unwrap();
        assert!(key.key == 10 || key.key == 11 || key.key == 12);
    }
}

#[test]
fn issued_key_names_the_strkey_of_the_player() {
    let mut test = TapMintTest::setup(true);
    let key = test.get_mint_key().unwrap();
    let strkey = test.player1.to_string().to_string();
    assert_eq!(strkey.len(), 56);
    assert_eq!(key.player, strkey);
    let player = Principal::of(test.player1.clone());
    assert_eq!(player.name(), &strkey);
    assert_eq!(player.address(), &test.player1);
    assert_eq!(test.contract.mint_keys().unwrap().get(&strkey), Some(key));
}

#[test]
fn balance_reports_what_the_token_holds() {
    let test = TapMintTest::setup(true);
    assert_eq!(test.balance(&test.address), Ok(1000));
    assert_eq!(test.balance(&test.token_distributor), Ok(0));
    assert_eq!(test.balance(&test.player1), Ok(0));
}

#[test]
fn balance_of_a_token_that_does_not_answer_is_a_transfer_failure() {
    let env = Env::new_with_config(EnvTestConfig { capture_snapshot_at_drop: false });
    let address = env.register(Deployed, ());
    // A contract that is no token.
    let no_token = env.register(Deployed, ());
    let holder = Address::generate(&env);
    let mut contract = TapMintContract::new(Config::default());
    assert_eq!(contract.initialize_funded(no_token, true, true), Ok(()));
    let answer = env.as_contract(&address, || contract.balance(&env, &holder));
    assert_eq!(answer, Err(TapMintError::TransferFailure));
}

#[test]
fn mint_amount_follows_the_configuration() {
    let config = Config::new(60, 7, 100).unwrap();
    let mut test = TapMintTest::setup_with(config, 1000, true);
    test.env.ledger().set_timestamp(500);
    let key = test.get_mint_key().unwrap();
    assert_eq!(test.mint(key.key), Ok(500));
    assert_eq!(test.token_client.balance(&test.player1), 7);
    assert_eq!(test.token_client.balance(&test.address), 993);
    test.env.ledger().set_timestamp(559);
    assert_eq!(test.get_mint_key(), Err(TapMintError::CooldownActive));
    test.env.ledger().set_timestamp(560);
    assert!(test.get_mint_key().is_ok());
}

const ACCOUNT: &str = "GA7QYNF7SOWQ3GLR2BGMZEHXAVIRZA4KVWLTJJFC7MGXUA74P7UJVSGZ";

#[test]
fn initialize_with_an_account_for_a_token_is_a_transfer_failure() {
    let mut test = TapMintTest::setup(false);
    test.token_id = Address::from_str(&test.env, ACCOUNT);
    assert_eq!(test.initialize(1000, true), Err(TapMintError::TransferFailure));
    assert!(!test.contract.is_initialized());
    assert!(test.contract.token_address().is_none());
    assert_eq!(test.token_client.balance(&test.token_distributor), 1000);
    // The other refusals still come first.
    assert_eq!(test.initialize(1000, false), Err(TapMintError::Unauthorized));
}

#[test]
fn authority_with_an_account_for_a_token_pays_nothing_and_reports_nothing() {
    let env = Env::new_with_config(EnvTestConfig { capture_snapshot_at_drop: false });
    env.mock_all_auths_allowing_non_root_auth();
    let reserve = env.register(Deployed, ());
    let account = Address::from_str(&env, ACCOUNT);
    let player = Principal::of(Address::generate(&env));
    let mut contract = TapMintContract::restore(
        Config::default(),
        account.clone(),
        CooldownLedger::new(),
        MintKeyRegistry::new(),
    );
    assert_eq!(contract.balance(&env, &reserve), Err(TapMintError::TransferFailure));
    assert_eq!(contract.balance(&env, &account), Err(TapMintError::TransferFailure));

    let key = contract.get_mint_key(&env, &player, true, 5).unwrap();
    assert_eq!(
        contract.mint(&env, &reserve, &player, key.key, true),
        Err(TapMintError::TransferFailure)
    );
    assert!(contract.is_mint_key_valid(player.name(), key.key));
    assert_eq!(contract.cooldowns().unwrap().last_redeemed(player.name()), None);

    let mut funded_by_hand = TapMintContract::new(Config::default());
    assert_eq!(funded_by_hand.initialize_funded(account.clone(), true, true), Ok(()));
    assert_eq!(funded_by_hand.balance(&env, &reserve), Err(TapMintError::TransferFailure));
}

#[test]
fn operations_run_where_no_contract_is_running() {
    let env = Env::new_with_config(EnvTestConfig { capture_snapshot_at_drop: false });
    env.mock_all_auths();
    let token_admin = Address::generate(&env);
    let distributor = Address::generate(&env);
    let reserve = Address::generate(&env);
    let player_address = Address::generate(&env);
    let (token_id, token_client, token_admin_client) = create_token_contract(&env, &token_admin);
    token_admin_client.mint(&distributor, &1000);
    env.ledger().set_timestamp(900);

    let mut contract = TapMintContract::new(Config::default());
    let player = Principal::of(player_address.clone());
    assert_eq!(contract.get_mint_key(&env, &player, true, 7), Err(TapMintError::NotInitialized));
    assert_eq!(
        contract.mint(&env, &reserve, &player, 907, true),
        Err(TapMintError::NotInitialized)
    );
    assert_eq!(contract.balance(&env, &reserve), Err(TapMintError::NotInitialized));

    assert_eq!(
        contract.initialize(&env, &reserve, &distributor, 1000, token_id.clone(), true),
        Ok(())
    );
    assert_eq!(contract.balance(&env, &reserve), Ok(1000));
    let key = contract.get_mint_key(&env, &player, true, 7).unwrap();
    assert_eq!(key.key, 907);
    assert_eq!(key.generated_at, 900);
    assert_eq!(contract.mint(&env, &reserve, &player, 907, true), Ok(900));
    assert_eq!(token_client.balance(&player_address), 20);
    assert_eq!(token_client.balance(&reserve), 980);
    assert_eq!(contract.balance(&env, &player_address), Ok(20));
}

#[test]
fn given_offset_is_added_to_the_ledger_clock() {
    let mut test = TapMintTest::setup(true);
    test.env.ledger().set_timestamp(1_700_000_000);
    let player = Principal::of(test.player1.clone());
    let first = test.contract.get_mint_key(&test.env, &player, true, 0).unwrap();
    assert_eq!(first.key, 1_700_000_000);
    let last = test.contract.get_mint_key(&test.env, &player, true, 9_999).unwrap();
    assert_eq!(last.key, 1_700_009_999);
    assert_eq!(last.generated_at, 1_700_000_000);
    assert_eq!(last.player, test.player1.to_string().to_string());
    assert_eq!(test.mint(first.key), Err(TapMintError::InvalidMintKey));
    assert_eq!(test.mint(last.key), Ok(1_700_000_000));
}

#[test]
fn principals_of_one_address_share_a_name_and_others_do_not() {
    let env = Env::new_with_config(EnvTestConfig { capture_snapshot_at_drop: false });
    let one = Address::generate(&env);
    let other = Address::generate(&env);
    assert_eq!(Principal::of(one.clone()).name(), Principal::of(one.clone()).name());
    assert_ne!(Principal::of(one.clone()).name(), Principal::of(other.clone()).name());
    assert!(!Principal::of(one.clone()).name().is_empty());
    let account = Principal::of(Address::from_str(&env, ACCOUNT));
    assert_eq!(account.name(), ACCOUNT);
}

#[test]
fn addresses_made_on_another_host_are_brought_over() {
    let elsewhere = Env::new_with_config(EnvTestConfig { capture_snapshot_at_drop: false });
    let _ = Address::generate(&elsewhere);
    let distributor_elsewhere = Address::generate(&elsewhere);
    let reserve_elsewhere = Address::generate(&elsewhere);
    let player_elsewhere = Address::generate(&elsewhere);

    let env = Env::new_with_config(EnvTestConfig { capture_snapshot_at_drop: false });
    env.mock_all_auths();
    let token_admin = Address::generate(&env);
    let (token_id, token_client, token_admin_client) = create_token_contract(&env, &token_admin);
    let distributor = Address::from_str(&env, &distributor_elsewhere.to_string().to_string());
    let reserve = Address::from_str(&env, &reserve_elsewhere.to_string().to_string());
    let player_here = Address::from_str(&env, &player_elsewhere.to_string().to_string());
    token_admin_client.mint(&distributor, &1000);
    env.ledger().set_timestamp(40);

    let mut contract = TapMintContract::new(Config::default());
    assert_eq!(
        contract.initialize(
            &env,
            &reserve_elsewhere,
            &distributor_elsewhere,
            1000,
            token_id.clone(),
            true
        ),
        Ok(())
    );
    assert_eq!(token_client.balance(&reserve), 1000);
    assert_eq!(contract.balance(&env, &reserve_elsewhere), Ok(1000));

    let player = Principal::of(player_elsewhere);
    assert_eq!(player.name(), &player_here.to_string().to_string());
    let key = contract.get_mint_key(&env, &player, true, 2).unwrap();
    assert_eq!(key.key, 42);
    assert_eq!(contract.mint(&env, &reserve_elsewhere, &player, 42, true), Ok(40));
    assert_eq!(token_client.balance(&player_here), 20);
    assert_eq!(token_client.balance(&reserve), 980);
}

#[test]
fn token_that_was_never_deployed_is_a_transfer_failure() {
    let env = Env::new_with_config(EnvTestConfig { capture_snapshot_at_drop: false });
    env.mock_all_auths();
    let nowhere = Address::generate(&env);
    let reserve = Address::generate(&env);
    let funder = Address::generate(&env);
    let mut contract = TapMintContract::new(Config::default());
    assert_eq!(
        contract.initialize(&env, &reserve, &funder, 1000, nowhere.clone(), true),
        Err(TapMintError::TransferFailure)
    );
    assert!(!contract.is_initialized());
    let restored = TapMintContract::restore(
        Config::default(),
        nowhere,
        CooldownLedger::new(),
        MintKeyRegistry::new(),
    );
    assert_eq!(restored.balance(&env, &reserve), Err(TapMintError::TransferFailure));
}
