//! The three parameters that a deployment fixes once.

use vstd::prelude::*;

verus! {

/// Seconds a principal waits between two redemptions unless configured otherwise.
pub const DEFAULT_COOLDOWN_SECONDS: u64 = 180;

/// Token units handed out per redemption unless configured otherwise.
pub const DEFAULT_MINT_AMOUNT: u64 = 20;

/// Exclusive upper bound of the random offset of a key unless configured otherwise.
pub const DEFAULT_OFFSET_BOUND: u64 = 10000;

/// The parameters of a deployment. The offset bound of a `Config` is never
/// zero, so a range of offsets `[0, bound)` always holds at least one value.
#[derive(Clone, Copy, Debug)]
pub struct Config {
    cooldown_seconds: u64,
    mint_amount: u64,
    offset_bound: u64,
}

impl Config {
    #[verifier::type_invariant]
    spec fn nonempty_offset_range(self) -> bool {
        self.offset_bound > 0
    }

    /// Minimum number of seconds between two redemptions of one principal.
    pub closed spec fn spec_cooldown_seconds(&self) -> u64 {
        self.cooldown_seconds
    }

    /// Token units that one redemption moves from the reserve to the principal.
    pub closed spec fn spec_mint_amount(&self) -> u64 {
        self.mint_amount
    }

    /// Exclusive upper bound of the random offset added to the clock to form a key.
    pub closed spec fn spec_offset_bound(&self) -> u64 {
        self.offset_bound
    }

    /// A configuration with the given parameters, or `None` when the range
    /// of offsets `[0, offset_bound)` would be empty.
    pub fn new(cooldown_seconds: u64, mint_amount: u64, offset_bound: u64) -> (made: Option<Config>)
        ensures
            made is Some <==> offset_bound > 0,
            made matches Some(c) ==> {
                &&& c.spec_cooldown_seconds() == cooldown_seconds
                &&& c.spec_mint_amount() == mint_amount
                &&& c.spec_offset_bound() == offset_bound
            },
    {
        if offset_bound == 0 {
            None
        } else {
            Some(Config { cooldown_seconds, mint_amount, offset_bound })
        }
    }

    #[verifier::when_used_as_spec(spec_cooldown_seconds)]
    pub fn cooldown_seconds(&self) -> (seconds: u64)
        ensures
            seconds == self.spec_cooldown_seconds(),
    {
        self.cooldown_seconds
    }

    #[verifier::when_used_as_spec(spec_mint_amount)]
    pub fn mint_amount(&self) -> (amount: u64)
        ensures
            amount == self.spec_mint_amount(),
    {
        self.mint_amount
    }

    #[verifier::when_used_as_spec(spec_offset_bound)]
    pub fn offset_bound(&self) -> (bound: u64)
        ensures
            bound == self.spec_offset_bound(),
            bound > 0,
    {
        proof {
            use_type_invariant(self);
        }
        self.offset_bound
    }
}

impl Default for Config {
    /// A cooldown of three minutes, twenty units per redemption, offsets below ten thousand.
    fn default() -> (c: Config)
        ensures
            c.spec_cooldown_seconds() == DEFAULT_COOLDOWN_SECONDS,
            c.spec_mint_amount() == DEFAULT_MINT_AMOUNT,
            c.spec_offset_bound() == DEFAULT_OFFSET_BOUND,
    {
        Config {
            cooldown_seconds: DEFAULT_COOLDOWN_SECONDS,
            mint_amount: DEFAULT_MINT_AMOUNT,
            offset_bound: DEFAULT_OFFSET_BOUND,
        }
    }
}

} // verus!
