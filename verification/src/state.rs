use crate::decimal::Decimal;
use crate::error::ContractError;
use crate::table::{AddrTable, PairTable, ValueCopy};
use vstd::map::*;
use vstd::prelude::*;

verus! {

/// Governance and fee settings of the token, created once at
/// instantiation and mutated only by owner-gated handlers.
#[derive(Debug)]
pub struct Config {
    pub mint_interval_seconds: u64,
    pub fee_percent: Decimal,
    pub fee_receiver: String,
    pub immutable_mode: bool,
    pub mint_enabled: bool,
    pub mint_amount: u128,
    pub owner: String,
}

impl ValueCopy for Config {
    fn value_copy(&self) -> (r: Config) {
        Config {
            mint_interval_seconds: self.mint_interval_seconds,
            fee_percent: self.fee_percent,
            fee_receiver: self.fee_receiver.clone(),
            immutable_mode: self.immutable_mode,
            mint_enabled: self.mint_enabled,
            mint_amount: self.mint_amount,
            owner: self.owner.clone(),
        }
    }
}

/// Naming data fixed at creation, and the running total supply.
#[derive(Debug)]
pub struct TokenInfo {
    pub name: String,
    pub symbol: String,
    pub decimals: u8,
    pub total_supply: u128,
}

impl ValueCopy for TokenInfo {
    fn value_copy(&self) -> (r: TokenInfo) {
        TokenInfo {
            name: self.name.clone(),
            symbol: self.symbol.clone(),
            decimals: self.decimals,
            total_supply: self.total_supply,
        }
    }
}

/// Per-account record of the last successful mint.  An account without a
/// record has never minted and is immediately eligible.
#[derive(Clone, Copy, Debug, PartialEq, Eq, Structural)]
pub struct MintInfo {
    pub last_mint_time: u64,
}

impl ValueCopy for MintInfo {
    fn value_copy(&self) -> (r: MintInfo) {
        *self
    }
}

/// A delegation: how much the grantee may still move out of the
/// granter's account.  `expires` is recorded but not yet enforced.
#[derive(Clone, Copy, Debug, PartialEq, Eq, Structural)]
pub struct AllowanceResponse {
    pub allowance: u128,
    pub expires: u64,
}

/// Answer to the total-burned query.
#[derive(Clone, Copy, Debug, PartialEq, Eq, Structural)]
pub struct TotalBurnedResponse {
    pub total_burned: u128,
}

/// The account ledger.  Abstractly it is total: every account has a
/// balance, zero where no record exists.
pub struct Ledger {
    accounts: AddrTable<u128>,
}

impl View for Ledger {
    type V = Map<Seq<char>, u128>;

    closed spec fn view(&self) -> Map<Seq<char>, u128> {
        Map::new(
            |a: Seq<char>| true,
            |a: Seq<char>|
                match self.accounts@[a] {
                    Some(b) => b,
                    None => 0,
                },
        )
    }
}

impl Ledger {
    /// A ledger in which every account holds zero.
    pub fn new() -> (r: Ledger)
        ensures
            forall|a: Seq<char>| #[trigger] r@[a] == 0,
    {
        let r = Ledger { accounts: AddrTable::new() };
        proof {
            assert forall|a: Seq<char>| #[trigger] r@[a] == 0 by {
                assert(r.accounts@[a] is None);
            }
        }
        r
    }

    /// The balance of `addr`: zero if no record exists, never an error.
    pub fn balance(&self, addr: &String) -> (r: u128)
        ensures
            r == self@[addr@],
    {
        match self.accounts.get(addr) {
            Some(b) => b,
            None => 0,
        }
    }

    /// Overwrites the balance of `addr`.
    pub fn set_balance(&mut self, addr: &String, amount: u128)
        ensures
            final(self)@ == old(self)@.insert(addr@, amount),
    {
        self.accounts.set(addr, amount);
        proof {
            assert_maps_equal!(self@, old(self)@.insert(addr@, amount), m => {});
        }
    }

    /// Adds `amount` to the balance of `addr`.  Fails with
    /// `ArithmeticOverflow`, changing nothing, when the new balance would
    /// not fit 128 bits.
    pub fn credit(&mut self, addr: &String, amount: u128) -> (r: Result<(), ContractError>)
        ensures
            r is Ok <==> old(self)@[addr@] + amount <= u128::MAX,
            r is Ok ==> final(self)@ == old(self)@.insert(
                addr@,
                (old(self)@[addr@] + amount) as u128,
            ),
            r is Err ==> *final(self) == *old(self) && r == Err::<(), ContractError>(
                ContractError::ArithmeticOverflow,
            ),
    {
        let b = self.balance(addr);
        match b.checked_add(amount) {
            Some(nb) => {
                self.set_balance(addr, nb);
                Ok(())
            },
            None => Err(ContractError::ArithmeticOverflow),
        }
    }

    /// Takes `amount` from the balance of `addr`.  Fails with
    /// `InsufficientBalance`, changing nothing, when the account holds
    /// less than `amount`.
    pub fn debit(&mut self, addr: &String, amount: u128) -> (r: Result<(), ContractError>)
        ensures
            r is Ok <==> amount <= old(self)@[addr@],
            r is Ok ==> final(self)@ == old(self)@.insert(
                addr@,
                (old(self)@[addr@] - amount) as u128,
            ),
            r is Err ==> *final(self) == *old(self) && r == Err::<(), ContractError>(
                ContractError::InsufficientBalance,
            ),
    {
        let b = self.balance(addr);
        match b.checked_sub(amount) {
            Some(nb) => {
                self.set_balance(addr, nb);
                Ok(())
            },
            None => Err(ContractError::InsufficientBalance),
        }
    }
}

/// The whole storage scope of the token contract.
pub struct TokenState {
    pub config: Config,
    pub token_info: TokenInfo,
    pub total_burned: u128,
    pub balances: Ledger,
    pub allowances: PairTable<AllowanceResponse>,
    pub mint_info: AddrTable<MintInfo>,
}

impl TokenState {
    /// The balance of account `a`.
    pub open spec fn balance_of(self, a: Seq<char>) -> u128 {
        self.balances@[a]
    }

    /// The delegation `owner` has granted `spender`; zero without a
    /// record.
    pub open spec fn allowance_of(self, owner: Seq<char>, spender: Seq<char>) -> AllowanceResponse {
        match self.allowances@[(owner, spender)] {
            Some(g) => g,
            None => AllowanceResponse { allowance: 0, expires: 0 },
        }
    }
}

} // verus!
