//! What the authority asks of the Soroban host.
//!
//! The authority reads the ledger clock, asks a token contract to move
//! tokens or to report a balance, and turns an address into the text it
//! files a principal under. The contracts of these calls are taken on trust
//! from `soroban-sdk`. They claim nothing of a value that only the ledger
//! decides. Of an address they name two things that the address alone
//! decides: its strkey and whether it is the address of a contract.
//!
//! What exists only while the host runs a contract, the address of the
//! running contract and a draw of the host's generator, is not asked for
//! here: the operations take both as arguments.

use vstd::prelude::*;
use soroban_sdk::{Address, Env, IntoVal};

verus! {

/// `soroban_sdk::Env`, the handle to the host. Opaque to the verifier.
#[verifier::external_type_specification]
#[verifier::external_body]
pub struct ExEnv(soroban_sdk::Env);

/// `soroban_sdk::Address`, an account or contract identity. Opaque to the verifier.
#[verifier::external_type_specification]
#[verifier::external_body]
pub struct ExAddress(soroban_sdk::Address);

/// `soroban_sdk::Error`, the error value of a contract or of the host. Opaque to the verifier.
#[verifier::external_type_specification]
#[verifier::external_body]
pub struct ExHostError(soroban_sdk::Error);

/// `soroban_sdk::InvokeError`, the failure of an invocation that gave no error value. Opaque to the verifier.
#[verifier::external_type_specification]
#[verifier::external_body]
pub struct ExInvokeError(soroban_sdk::InvokeError);

/// `soroban_sdk::ConversionError`, a result that is not of the expected type. Opaque to the verifier.
#[verifier::external_type_specification]
#[verifier::external_body]
pub struct ExConversionError(soroban_sdk::ConversionError);

/// Calls `Env::ledger().timestamp()`: the close time of the current ledger in
/// seconds since the Unix epoch. Nothing is claimed of the value: two
/// readings may differ.
#[verifier::external_body]
pub(crate) fn ledger_timestamp(env: &Env) -> (now: u64) {
    env.ledger().timestamp()
}

/// What `try_transfer` hands back: `Ok(Ok(()))` when the token contract ran
/// and returned, `Ok(Err(_))` when it ran but what it returned could not be
/// read, and `Err(_)` when its invocation failed.
pub type TransferAnswer = Result<
    Result<(), soroban_sdk::ConversionError>,
    Result<soroban_sdk::Error, soroban_sdk::InvokeError>,
>;

/// What `try_balance` hands back: the balance, or in the same two ways the
/// reason for which there is none.
pub type BalanceAnswer = Result<
    Result<i128, soroban_sdk::Error>,
    Result<soroban_sdk::Error, soroban_sdk::InvokeError>,
>;

/// The strkey of an address: the text that `Address::to_string` gives for
/// it. The address alone decides it.
pub uninterp spec fn strkey_of(address: Address) -> Seq<char>;

/// Whether an address is the address of a contract, and not that of an
/// account or of another ledger entry: whether `xdr::ScAddress::from` gives
/// the variant `Contract` for it. The address alone decides it.
pub uninterp spec fn is_contract_address(address: Address) -> bool;

/// Calls `xdr::ScAddress::from(&Address)` and tells the variants apart.
/// Claimed: the answer is the kind that the address has. Only a contract
/// can be called; the host refuses every other kind before it tries.
#[verifier::external_body]
pub(crate) fn address_is_contract(address: &Address) -> (yes: bool)
    ensures
        yes == is_contract_address(*address),
{
    match soroban_sdk::xdr::ScAddress::from(address) {
        soroban_sdk::xdr::ScAddress::Contract(_) => true,
        soroban_sdk::xdr::ScAddress::Account(_) => false,
        soroban_sdk::xdr::ScAddress::MuxedAccount(_) => false,
        soroban_sdk::xdr::ScAddress::ClaimableBalance(_) => false,
        soroban_sdk::xdr::ScAddress::LiquidityPool(_) => false,
    }
}

/// What the authority asks of a token contract: to move `amount` units
/// from `from` to `to`.
pub struct TransferOrder<'a> {
    /// The token contract that is asked.
    pub token: &'a Address,
    /// The holder that pays.
    pub from: &'a Address,
    /// The holder that receives.
    pub to: &'a Address,
    /// The number of units to move.
    pub amount: i128,
}

/// Calls `token::TokenClient::try_transfer` on the token contract that
/// `order` names, with the payer, the receiver and the amount of `order`.
///
/// An address is a handle into the host it was made on, and a host aborts
/// on a handle of another host. So the three addresses are first written
/// as `xdr::ScAddress`, which is free of any host, and read back on the
/// host of `env`; the call is made with those. The host also aborts when
/// asked to call an address that is no contract, which `requires` rules out.
/// Nothing is claimed of the answer: it depends on the balances and
/// authorizations that the ledger holds.
#[verifier::external_body]
pub(crate) fn token_transfer(env: &Env, order: &TransferOrder) -> (answer: TransferAnswer)
    requires
        is_contract_address(*order.token),
{
    let token: Address = soroban_sdk::xdr::ScAddress::from(order.token).into_val(env);
    let from: Address = soroban_sdk::xdr::ScAddress::from(order.from).into_val(env);
    let to: Address = soroban_sdk::xdr::ScAddress::from(order.to).into_val(env);
    soroban_sdk::token::TokenClient::new(env, &token).try_transfer(&from, &to, &order.amount)
}

/// Calls `token::TokenClient::try_balance` on the token contract at `token`
/// for the balance of `holder`, with both addresses brought onto the host
/// of `env` as [`token_transfer`] does. The host aborts when asked to call
/// an address that is no contract, which `requires` rules out. Nothing is
/// claimed of the answer: it is what the ledger holds.
#[verifier::external_body]
pub(crate) fn token_balance(env: &Env, token: &Address, holder: &Address) -> (answer: BalanceAnswer)
    requires
        is_contract_address(*token),
{
    let token: Address = soroban_sdk::xdr::ScAddress::from(token).into_val(env);
    let holder: Address = soroban_sdk::xdr::ScAddress::from(holder).into_val(env);
    soroban_sdk::token::TokenClient::new(env, &token).try_balance(&holder)
}

/// Whether an answer shows that the token contract completed a transfer:
/// it does exactly when the call returned and its result could be read.
///
/// Of the other answers, an invocation that failed has left no trace: the
/// host undoes what a failed call did. An answer whose result could not be
/// read (`Ok(Err(_))`) comes from a call that ran to its end, so its
/// effects stand until the caller itself aborts.
pub open spec fn completed(answer: TransferAnswer) -> bool {
    answer matches Ok(Ok(_))
}

/// The balance that an answer carries, if it carries one.
pub open spec fn reported(answer: BalanceAnswer) -> Option<i128> {
    match answer {
        Ok(Ok(amount)) => Some(amount),
        _ => None,
    }
}

/// Whether the token contract completed a transfer.
pub(crate) fn transfer_completed(answer: &TransferAnswer) -> (moved: bool)
    ensures
        moved == completed(*answer),
{
    match answer {
        Ok(Ok(_)) => true,
        _ => false,
    }
}

/// The balance that the token contract reported, if it reported one.
pub(crate) fn reported_balance(answer: &BalanceAnswer) -> (held: Option<i128>)
    ensures
        held == reported(*answer),
{
    match answer {
        Ok(Ok(amount)) => Some(*amount),
        _ => None,
    }
}

/// Calls `Address::to_string()`, which asks the host for the strkey of the
/// address, and copies the text out of the host with `String::len` and
/// `String::copy_into_slice`. Claimed: the text is the strkey of the address.
#[verifier::external_body]
pub(crate) fn address_strkey(address: &Address) -> (text: String)
    ensures
        text@ == strkey_of(*address),
{
    let strkey = address.to_string();
    let mut bytes = vec![0u8; strkey.len() as usize];
    strkey.copy_into_slice(&mut bytes);
    String::from_utf8_lossy(&bytes).into_owned()
}

/// A principal: an address of the ledger together with the text under which
/// the authority files it, which is the strkey of the address. Keys and
/// cooldowns are filed by the text; tokens are sent to the address.
pub struct Principal {
    address: Address,
    name: String,
}

/// A principal as a mathematical value.
pub struct PrincipalView {
    /// The address to which the principal's tokens go.
    pub address: Address,
    /// The text under which the principal is filed.
    pub name: Seq<char>,
}

impl PrincipalView {
    /// What holds of every principal: it is filed under the strkey of its
    /// address.
    pub open spec fn wf(self) -> bool {
        self.name == strkey_of(self.address)
    }
}

impl View for Principal {
    type V = PrincipalView;

    closed spec fn view(&self) -> PrincipalView {
        PrincipalView { address: self.address, name: self.name@ }
    }
}

impl Principal {
    #[verifier::type_invariant]
    spec fn filed_under_strkey(self) -> bool {
        self.name@ == strkey_of(self.address)
    }

    /// The principal that `address` identifies, filed under the strkey of
    /// the address.
    pub fn of(address: Address) -> (who: Principal)
        ensures
            who@ == (PrincipalView { address, name: strkey_of(address) }),
    {
        let name = address_strkey(&address);
        Principal { address, name }
    }

    /// The address to which the principal's tokens go.
    pub fn address(&self) -> (address: &Address)
        ensures
            *address == self@.address,
            self@.wf(),
    {
        proof {
            use_type_invariant(self);
        }
        &self.address
    }

    /// The text under which the principal is filed: the strkey of its address.
    pub fn name(&self) -> (name: &String)
        ensures
            name@ == self@.name,
            self@.wf(),
    {
        proof {
            use_type_invariant(self);
        }
        &self.name
    }
}

} // verus!
