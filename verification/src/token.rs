use crate::decimal::Decimal;
use crate::error::ContractError;
use crate::response::{amount_attr, is_amount_attr, is_text_attr, text_attr, Response};
use crate::state::{
    AllowanceResponse, Config, Ledger, MintInfo, TokenInfo, TokenState, TotalBurnedResponse,
};
use crate::table::{AddrTable, PairTable, ValueCopy};
use vstd::prelude::*;

verus! {

/// Cooldown between two successful mints of one account: one day.
pub const MINT_INTERVAL_SECONDS: u64 = 86_400;

/// Amount credited by every successful mint.
pub const DEFAULT_MINT_AMOUNT: u128 = 400_000_000_000_000_000;

/// The message that creates the token.
pub struct InstantiateMsg {
    pub name: String,
    pub symbol: String,
    pub decimals: u8,
    pub initial_supply: u128,
    pub fee_receiver: String,
    pub owner: Option<String>,
}

/// The actions the token contract executes.
pub enum ExecuteMsg {
    Transfer { recipient: String, amount: u128 },
    Burn { amount: u128 },
    Send { contract: String, amount: u128, msg: Vec<u8> },
    Mint,
    IncreaseAllowance { spender: String, amount: u128, expires: Option<u64> },
    DecreaseAllowance { spender: String, amount: u128, expires: Option<u64> },
    TransferFrom { owner: String, recipient: String, amount: u128 },
    SetMintAmount { amount: u128 },
    SetMintEnabled { enabled: bool },
    LockOwnership,
    TransferOwnership { new_owner: String },
}

/// The read-only questions the token contract answers.
pub enum QueryMsg {
    Balance { address: String },
    TokenInfo {},
    Minter {},
    Allowance { owner: String, spender: String },
    GetConfig {},
    GetMintInfo { address: String },
    GetTotalBurned {},
}

/// Answer to the balance query.
#[derive(Clone, Copy, Debug, PartialEq, Eq, Structural)]
pub struct BalanceResponse {
    pub balance: u128,
}

/// Answer to the token-info query.
#[derive(Debug)]
pub struct TokenInfoResponse {
    pub name: String,
    pub symbol: String,
    pub decimals: u8,
    pub total_supply: u128,
}

/// Answer to a query, as plain values the embedding serializes.
#[derive(Debug)]
pub enum QueryResponse {
    Balance(BalanceResponse),
    TokenInfo(TokenInfoResponse),
    Config(Config),
    MintInfo(MintInfo),
    TotalBurned(TotalBurnedResponse),
}

/// The owner chosen at instantiation: the one named in the message, or
/// the instantiating caller.
pub open spec fn chosen_owner(msg_owner: Option<String>, sender: String) -> String {
    match msg_owner {
        Some(o) => o,
        None => sender,
    }
}

/// `floor(amount * fee_percent)`: the fee skimmed off a transfer.
pub open spec fn spec_fee(pre: TokenState, amount: u128) -> int {
    pre.config.fee_percent.spec_mul_floor(amount)
}

/// The sequential three-way rebalancing of a fee-skimming transfer, or
/// the first precondition it violates: the sender is debited the full
/// amount, the recipient credited the amount net of the fee, and the fee
/// receiver credited the fee, in that order.
pub open spec fn spec_transfer(
    pre: TokenState,
    sender: Seq<char>,
    recipient: Seq<char>,
    amount: u128,
) -> Result<Map<Seq<char>, u128>, ContractError> {
    let fee = spec_fee(pre, amount);
    let net = amount - fee;
    let frcv = pre.config.fee_receiver@;
    if amount > pre.balance_of(sender) {
        Err(ContractError::InsufficientBalance)
    } else {
        let b1 = pre.balances@.insert(sender, (pre.balance_of(sender) - amount) as u128);
        if b1[recipient] + net > u128::MAX {
            Err(ContractError::ArithmeticOverflow)
        } else {
            let b2 = b1.insert(recipient, (b1[recipient] + net) as u128);
            if b2[frcv] + fee > u128::MAX {
                Err(ContractError::ArithmeticOverflow)
            } else {
                Ok(b2.insert(frcv, (b2[frcv] + fee) as u128))
            }
        }
    }
}

/// The metadata a successful transfer emits.
pub open spec fn transfer_attrs(
    resp: Response,
    sender: Seq<char>,
    recipient: Seq<char>,
    net: u128,
    fee: u128,
) -> bool {
    &&& resp.messages@.len() == 0
    &&& resp.attributes@.len() == 5
    &&& is_text_attr(resp.attributes@[0], "action"@, "transfer"@)
    &&& is_text_attr(resp.attributes@[1], "from"@, sender)
    &&& is_text_attr(resp.attributes@[2], "to"@, recipient)
    &&& is_amount_attr(resp.attributes@[3], "amount"@, net)
    &&& is_amount_attr(resp.attributes@[4], "fee"@, fee)
}

/// Everything a transfer promises: on success the rebalancing of
/// `spec_transfer` and nothing else; on failure the error it names and
/// an untouched state.
pub open spec fn transfer_post(
    pre: TokenState,
    post: TokenState,
    r: Result<Response, ContractError>,
    sender: Seq<char>,
    recipient: Seq<char>,
    amount: u128,
) -> bool {
    let fee = spec_fee(pre, amount);
    match spec_transfer(pre, sender, recipient, amount) {
        Ok(nb) => {
            &&& r matches Ok(resp) && transfer_attrs(
                resp,
                sender,
                recipient,
                (amount - fee) as u128,
                fee as u128,
            )
            &&& post.balances@ == nb
            &&& post.config == pre.config
            &&& post.token_info == pre.token_info
            &&& post.total_burned == pre.total_burned
            &&& post.allowances == pre.allowances
            &&& post.mint_info == pre.mint_info
        },
        Err(e) => {
            &&& r == Err::<Response, ContractError>(e)
            &&& post == pre
        },
    }
}

/// Transfers `amount` from the caller to `recipient`, skimming the fee
/// to the configured receiver.
pub fn execute_transfer(
    state: &mut TokenState,
    sender: &String,
    recipient: &String,
    amount: u128,
) -> (r: Result<Response, ContractError>)
    requires
        old(state).config.fee_percent.wf(),
    ensures
        transfer_post(*old(state), *final(state), r, sender@, recipient@, amount),
{
    // Every check runs before any write, so a failing step can never
    // leave a partial rebalancing behind.
    let fee = state.config.fee_percent.mul_floor(amount);
    let net = amount - fee;
    let bal_sender = state.balances.balance(sender);
    if amount > bal_sender {
        return Err(ContractError::InsufficientBalance);
    }
    let after_debit = bal_sender - amount;
    let bal_recipient = if *recipient == *sender {
        after_debit
    } else {
        state.balances.balance(recipient)
    };
    let new_recipient = match bal_recipient.checked_add(net) {
        Some(v) => v,
        None => {
            return Err(ContractError::ArithmeticOverflow);
        },
    };
    let frcv = state.config.fee_receiver.clone();
    let bal_frcv = if frcv == *recipient {
        new_recipient
    } else if frcv == *sender {
        after_debit
    } else {
        state.balances.balance(&frcv)
    };
    let new_frcv = match bal_frcv.checked_add(fee) {
        Some(v) => v,
        None => {
            return Err(ContractError::ArithmeticOverflow);
        },
    };
    state.balances.set_balance(sender, after_debit);
    state.balances.set_balance(recipient, new_recipient);
    state.balances.set_balance(&frcv, new_frcv);
    let mut attributes: Vec<crate::response::Attribute> = Vec::new();
    attributes.push(text_attr("action", "transfer".to_owned()));
    attributes.push(text_attr("from", sender.clone()));
    attributes.push(text_attr("to", recipient.clone()));
    attributes.push(amount_attr("amount", net));
    attributes.push(amount_attr("fee", fee));
    Ok(Response { attributes, messages: Vec::new() })
}

/// Everything a delegated transfer promises: the grant is charged first,
/// then the same three-way rebalancing runs against the granter.
pub open spec fn transfer_from_post(
    pre: TokenState,
    post: TokenState,
    r: Result<Response, ContractError>,
    owner: Seq<char>,
    spender: Seq<char>,
    recipient: Seq<char>,
    amount: u128,
) -> bool {
    let g = pre.allowance_of(owner, spender);
    let fee = spec_fee(pre, amount);
    if amount > g.allowance {
        &&& r == Err::<Response, ContractError>(ContractError::InsufficientAllowance)
        &&& post == pre
    } else {
        match spec_transfer(pre, owner, recipient, amount) {
            Ok(nb) => {
                &&& r matches Ok(resp) && {
                    &&& resp.messages@.len() == 0
                    &&& resp.attributes@.len() == 6
                    &&& is_text_attr(resp.attributes@[0], "action"@, "transfer_from"@)
                    &&& is_text_attr(resp.attributes@[1], "from"@, owner)
                    &&& is_text_attr(resp.attributes@[2], "to"@, recipient)
                    &&& is_text_attr(resp.attributes@[3], "by"@, spender)
                    &&& is_amount_attr(resp.attributes@[4], "amount"@, (amount - fee) as u128)
                    &&& is_amount_attr(resp.attributes@[5], "fee"@, fee as u128)
                }
                &&& post.balances@ == nb
                &&& post.allowances@ == pre.allowances@.insert(
                    (owner, spender),
                    Some(
                        AllowanceResponse {
                            allowance: (g.allowance - amount) as u128,
                            expires: g.expires,
                        },
                    ),
                )
                &&& post.config == pre.config
                &&& post.token_info == pre.token_info
                &&& post.total_burned == pre.total_burned
                &&& post.mint_info == pre.mint_info
            },
            Err(e) => {
                &&& r == Err::<Response, ContractError>(e)
                &&& post == pre
            },
        }
    }
}

/// Transfers `amount` out of `owner`'s account on the strength of an
/// allowance granted to the caller, charging the grant by `amount`.
pub fn execute_transfer_from(
    state: &mut TokenState,
    sender: &String,
    owner: &String,
    recipient: &String,
    amount: u128,
) -> (r: Result<Response, ContractError>)
    requires
        old(state).config.fee_percent.wf(),
    ensures
        transfer_from_post(*old(state), *final(state), r, owner@, sender@, recipient@, amount),
{
    let grant = match state.allowances.get(owner, sender) {
        Some(g) => g,
        None => AllowanceResponse { allowance: 0, expires: 0 },
    };
    let new_allowance = match grant.allowance.checked_sub(amount) {
        Some(v) => v,
        None => {
            return Err(ContractError::InsufficientAllowance);
        },
    };
    let fee = state.config.fee_percent.mul_floor(amount);
    let net = amount - fee;
    let bal_owner = state.balances.balance(owner);
    if amount > bal_owner {
        return Err(ContractError::InsufficientBalance);
    }
    let after_debit = bal_owner - amount;
    let bal_recipient = if *recipient == *owner {
        after_debit
    } else {
        state.balances.balance(recipient)
    };
    let new_recipient = match bal_recipient.checked_add(net) {
        Some(v) => v,
        None => {
            return Err(ContractError::ArithmeticOverflow);
        },
    };
    let frcv = state.config.fee_receiver.clone();
    let bal_frcv = if frcv == *recipient {
        new_recipient
    } else if frcv == *owner {
        after_debit
    } else {
        state.balances.balance(&frcv)
    };
    let new_frcv = match bal_frcv.checked_add(fee) {
        Some(v) => v,
        None => {
            return Err(ContractError::ArithmeticOverflow);
        },
    };
    state.allowances.set(
        owner,
        sender,
        AllowanceResponse { allowance: new_allowance, expires: grant.expires },
    );
    state.balances.set_balance(owner, after_debit);
    state.balances.set_balance(recipient, new_recipient);
    state.balances.set_balance(&frcv, new_frcv);
    let mut attributes: Vec<crate::response::Attribute> = Vec::new();
    attributes.push(text_attr("action", "transfer_from".to_owned()));
    attributes.push(text_attr("from", owner.clone()));
    attributes.push(text_attr("to", recipient.clone()));
    attributes.push(text_attr("by", sender.clone()));
    attributes.push(amount_attr("amount", net));
    attributes.push(amount_attr("fee", fee));
    Ok(Response { attributes, messages: Vec::new() })
}

/// Everything a burn promises: only the owner may burn, the amount must
/// be positive and covered, and the caller's balance, the burned total
/// and the total supply move in lockstep or not at all.
pub open spec fn burn_post(
    pre: TokenState,
    post: TokenState,
    r: Result<Response, ContractError>,
    sender: Seq<char>,
    amount: u128,
) -> bool {
    if sender != pre.config.owner@ {
        &&& r == Err::<Response, ContractError>(ContractError::Unauthorized)
        &&& post == pre
    } else if amount == 0 {
        &&& r == Err::<Response, ContractError>(ContractError::InvalidAmount)
        &&& post == pre
    } else if amount > pre.balance_of(sender) {
        &&& r == Err::<Response, ContractError>(ContractError::InsufficientBalance)
        &&& post == pre
    } else if pre.total_burned + amount > u128::MAX {
        &&& r == Err::<Response, ContractError>(ContractError::ArithmeticOverflow)
        &&& post == pre
    } else if amount > pre.token_info.total_supply {
        &&& r == Err::<Response, ContractError>(ContractError::ArithmeticOverflow)
        &&& post == pre
    } else {
        &&& r matches Ok(resp) && {
            &&& resp.messages@.len() == 0
            &&& resp.attributes@.len() == 3
            &&& is_text_attr(resp.attributes@[0], "action"@, "burn"@)
            &&& is_text_attr(resp.attributes@[1], "from"@, sender)
            &&& is_amount_attr(resp.attributes@[2], "amount"@, amount)
        }
        &&& post.balances@ == pre.balances@.insert(
            sender,
            (pre.balance_of(sender) - amount) as u128,
        )
        &&& post.total_burned == pre.total_burned + amount
        &&& post.token_info.total_supply == pre.token_info.total_supply - amount
        &&& post.token_info.name == pre.token_info.name
        &&& post.token_info.symbol == pre.token_info.symbol
        &&& post.token_info.decimals == pre.token_info.decimals
        &&& post.config == pre.config
        &&& post.allowances == pre.allowances
        &&& post.mint_info == pre.mint_info
    }
}

/// Burns `amount` of the caller's tokens: debits the balance, raises the
/// burned total and lowers the total supply, all three together.
pub fn execute_burn(state: &mut TokenState, sender: &String, amount: u128) -> (r: Result<
    Response,
    ContractError,
>)
    ensures
        burn_post(*old(state), *final(state), r, sender@, amount),
{
    if !(*sender == state.config.owner) {
        return Err(ContractError::Unauthorized);
    }
    if amount == 0 {
        return Err(ContractError::InvalidAmount);
    }
    let bal = state.balances.balance(sender);
    if amount > bal {
        return Err(ContractError::InsufficientBalance);
    }
    let new_burned = match state.total_burned.checked_add(amount) {
        Some(v) => v,
        None => {
            return Err(ContractError::ArithmeticOverflow);
        },
    };
    let new_supply = match state.token_info.total_supply.checked_sub(amount) {
        Some(v) => v,
        None => {
            return Err(ContractError::ArithmeticOverflow);
        },
    };
    state.balances.set_balance(sender, bal - amount);
    state.total_burned = new_burned;
    state.token_info.total_supply = new_supply;
    let mut attributes: Vec<crate::response::Attribute> = Vec::new();
    attributes.push(text_attr("action", "burn".to_owned()));
    attributes.push(text_attr("from", sender.clone()));
    attributes.push(amount_attr("amount", amount));
    Ok(Response { attributes, messages: Vec::new() })
}

/// Whether `a` may mint at `now`: it never minted, or the cooldown since
/// its last mint has elapsed.
pub open spec fn mint_ready(pre: TokenState, a: Seq<char>, now: u64) -> bool {
    match pre.mint_info@[a] {
        None => true,
        Some(mi) => now >= mi.last_mint_time + pre.config.mint_interval_seconds,
    }
}

/// Everything a mint promises: with minting disabled every call fails
/// whatever the time; otherwise the cooldown decides.  On success the
/// caller is credited the configured amount, the supply grows by it, and
/// the cooldown restarts.
pub open spec fn mint_post(
    pre: TokenState,
    post: TokenState,
    r: Result<Response, ContractError>,
    env_time: u64,
    sender: Seq<char>,
) -> bool {
    let m = pre.config.mint_amount;
    if !pre.config.mint_enabled {
        &&& r == Err::<Response, ContractError>(ContractError::MintDisabled)
        &&& post == pre
    } else if !mint_ready(pre, sender, env_time) {
        &&& r == Err::<Response, ContractError>(ContractError::MintOnCooldown)
        &&& post == pre
    } else if pre.balance_of(sender) + m > u128::MAX {
        &&& r == Err::<Response, ContractError>(ContractError::ArithmeticOverflow)
        &&& post == pre
    } else if pre.token_info.total_supply + m > u128::MAX {
        &&& r == Err::<Response, ContractError>(ContractError::ArithmeticOverflow)
        &&& post == pre
    } else {
        &&& r matches Ok(resp) && {
            &&& resp.messages@.len() == 0
            &&& resp.attributes@.len() == 3
            &&& is_text_attr(resp.attributes@[0], "action"@, "mint"@)
            &&& is_text_attr(resp.attributes@[1], "to"@, sender)
            &&& is_amount_attr(resp.attributes@[2], "amount"@, m)
        }
        &&& post.balances@ == pre.balances@.insert(sender, (pre.balance_of(sender) + m) as u128)
        &&& post.mint_info@ == pre.mint_info@.insert(
            sender,
            Some(MintInfo { last_mint_time: env_time }),
        )
        &&& post.token_info.total_supply == pre.token_info.total_supply + m
        &&& post.token_info.name == pre.token_info.name
        &&& post.token_info.symbol == pre.token_info.symbol
        &&& post.token_info.decimals == pre.token_info.decimals
        &&& post.config == pre.config
        &&& post.total_burned == pre.total_burned
        &&& post.allowances == pre.allowances
    }
}

/// Mints the configured amount to the caller, subject to the enable flag
/// and the per-account cooldown.
pub fn execute_mint(state: &mut TokenState, env_time: u64, sender: &String) -> (r: Result<
    Response,
    ContractError,
>)
    ensures
        mint_post(*old(state), *final(state), r, env_time, sender@),
{
    if !state.config.mint_enabled {
        return Err(ContractError::MintDisabled);
    }
    let ready = match state.mint_info.get(sender) {
        None => true,
        Some(mi) => {
            match mi.last_mint_time.checked_add(state.config.mint_interval_seconds) {
                Some(next) => env_time >= next,
                None => false,
            }
        },
    };
    if !ready {
        return Err(ContractError::MintOnCooldown);
    }
    let bal = state.balances.balance(sender);
    let new_bal = match bal.checked_add(state.config.mint_amount) {
        Some(v) => v,
        None => {
            return Err(ContractError::ArithmeticOverflow);
        },
    };
    let new_supply = match state.token_info.total_supply.checked_add(state.config.mint_amount) {
        Some(v) => v,
        None => {
            return Err(ContractError::ArithmeticOverflow);
        },
    };
    let minted = state.config.mint_amount;
    state.mint_info.set(sender, MintInfo { last_mint_time: env_time });
    state.balances.set_balance(sender, new_bal);
    state.token_info.total_supply = new_supply;
    let mut attributes: Vec<crate::response::Attribute> = Vec::new();
    attributes.push(text_attr("action", "mint".to_owned()));
    attributes.push(text_attr("to", sender.clone()));
    attributes.push(amount_attr("amount", minted));
    Ok(Response { attributes, messages: Vec::new() })
}

/// The check in front of every governance mutation: only the owner may
/// ask, and nothing may be asked once the contract is locked.
pub open spec fn gov_error(pre: TokenState, sender: Seq<char>) -> Option<ContractError> {
    if sender != pre.config.owner@ {
        Some(ContractError::Unauthorized)
    } else if pre.config.immutable_mode {
        Some(ContractError::ContractLocked)
    } else {
        None
    }
}

/// The state left by a governance call that changed `config` alone.
pub open spec fn only_config_changed(pre: TokenState, post: TokenState) -> bool {
    &&& post.token_info == pre.token_info
    &&& post.total_burned == pre.total_burned
    &&& post.balances == pre.balances
    &&& post.allowances == pre.allowances
    &&& post.mint_info == pre.mint_info
}

/// A one-attribute action header with no payments.
pub open spec fn action_only_attrs(resp: Response, action: Seq<char>) -> bool {
    &&& resp.messages@.len() == 0
    &&& resp.attributes@.len() == 1
    &&& is_text_attr(resp.attributes@[0], "action"@, action)
}

/// What setting the mint amount promises.
pub open spec fn set_mint_amount_post(
    pre: TokenState,
    post: TokenState,
    r: Result<Response, ContractError>,
    sender: Seq<char>,
    amount: u128,
) -> bool {
    match gov_error(pre, sender) {
        Some(e) => {
            &&& r == Err::<Response, ContractError>(e)
            &&& post == pre
        },
        None => {
            &&& r matches Ok(resp) && {
                &&& resp.messages@.len() == 0
                &&& resp.attributes@.len() == 2
                &&& is_text_attr(resp.attributes@[0], "action"@, "set_mint_amount"@)
                &&& is_amount_attr(resp.attributes@[1], "amount"@, amount)
            }
            &&& post.config == Config { mint_amount: amount, ..pre.config }
            &&& only_config_changed(pre, post)
        },
    }
}

/// Sets the amount every successful mint credits.
pub fn execute_set_mint_amount(state: &mut TokenState, sender: &String, amount: u128) -> (r: Result<
    Response,
    ContractError,
>)
    ensures
        set_mint_amount_post(*old(state), *final(state), r, sender@, amount),
{
    if !(*sender == state.config.owner) {
        return Err(ContractError::Unauthorized);
    }
    if state.config.immutable_mode {
        return Err(ContractError::ContractLocked);
    }
    state.config.mint_amount = amount;
    let mut attributes: Vec<crate::response::Attribute> = Vec::new();
    attributes.push(text_attr("action", "set_mint_amount".to_owned()));
    attributes.push(amount_attr("amount", amount));
    Ok(Response { attributes, messages: Vec::new() })
}

/// What switching the mint gate promises.
pub open spec fn set_mint_enabled_post(
    pre: TokenState,
    post: TokenState,
    r: Result<Response, ContractError>,
    sender: Seq<char>,
    enabled: bool,
) -> bool {
    match gov_error(pre, sender) {
        Some(e) => {
            &&& r == Err::<Response, ContractError>(e)
            &&& post == pre
        },
        None => {
            &&& r matches Ok(resp) && {
                &&& resp.messages@.len() == 0
                &&& resp.attributes@.len() == 2
                &&& is_text_attr(resp.attributes@[0], "action"@, "set_mint_enabled"@)
                &&& is_text_attr(
                    resp.attributes@[1],
                    "enabled"@,
                    if enabled {
                        "true"@
                    } else {
                        "false"@
                    },
                )
            }
            &&& post.config == Config { mint_enabled: enabled, ..pre.config }
            &&& only_config_changed(pre, post)
        },
    }
}

/// Opens or closes the mint gate.
pub fn execute_set_mint_enabled(
    state: &mut TokenState,
    sender: &String,
    enabled: bool,
) -> (r: Result<Response, ContractError>)
    ensures
        set_mint_enabled_post(*old(state), *final(state), r, sender@, enabled),
{
    if !(*sender == state.config.owner) {
        return Err(ContractError::Unauthorized);
    }
    if state.config.immutable_mode {
        return Err(ContractError::ContractLocked);
    }
    state.config.mint_enabled = enabled;
    let flag = if enabled {
        "true".to_owned()
    } else {
        "false".to_owned()
    };
    let mut attributes: Vec<crate::response::Attribute> = Vec::new();
    attributes.push(text_attr("action", "set_mint_enabled".to_owned()));
    attributes.push(text_attr("enabled", flag));
    Ok(Response { attributes, messages: Vec::new() })
}

/// What handing the ownership over promises.
pub open spec fn transfer_ownership_post(
    pre: TokenState,
    post: TokenState,
    r: Result<Response, ContractError>,
    sender: Seq<char>,
    new_owner: String,
) -> bool {
    match gov_error(pre, sender) {
        Some(e) => {
            &&& r == Err::<Response, ContractError>(e)
            &&& post == pre
        },
        None => {
            &&& r matches Ok(resp) && {
                &&& resp.messages@.len() == 0
                &&& resp.attributes@.len() == 2
                &&& is_text_attr(resp.attributes@[0], "action"@, "transfer_ownership"@)
                &&& is_text_attr(resp.attributes@[1], "new_owner"@, new_owner@)
            }
            &&& post.config == Config { owner: new_owner, ..pre.config }
            &&& only_config_changed(pre, post)
        },
    }
}

/// Hands the ownership, and with it every owner-gated right, to
/// `new_owner`.
pub fn execute_transfer_ownership(
    state: &mut TokenState,
    sender: &String,
    new_owner: String,
) -> (r: Result<Response, ContractError>)
    ensures
        transfer_ownership_post(*old(state), *final(state), r, sender@, new_owner),
{
    if !(*sender == state.config.owner) {
        return Err(ContractError::Unauthorized);
    }
    if state.config.immutable_mode {
        return Err(ContractError::ContractLocked);
    }
    let mut attributes: Vec<crate::response::Attribute> = Vec::new();
    attributes.push(text_attr("action", "transfer_ownership".to_owned()));
    attributes.push(text_attr("new_owner", new_owner.clone()));
    state.config.owner = new_owner;
    Ok(Response { attributes, messages: Vec::new() })
}

/// What locking promises: after it, no governance mutation — this one
/// included — ever succeeds again.
pub open spec fn lock_ownership_post(
    pre: TokenState,
    post: TokenState,
    r: Result<Response, ContractError>,
    sender: Seq<char>,
) -> bool {
    match gov_error(pre, sender) {
        Some(e) => {
            &&& r == Err::<Response, ContractError>(e)
            &&& post == pre
        },
        None => {
            &&& r matches Ok(resp) && action_only_attrs(resp, "lock_ownership"@)
            &&& post.config == Config { immutable_mode: true, ..pre.config }
            &&& only_config_changed(pre, post)
        },
    }
}

/// Locks the contract for good: a terminal, irreversible state.
pub fn execute_lock_ownership(state: &mut TokenState, sender: &String) -> (r: Result<
    Response,
    ContractError,
>)
    ensures
        lock_ownership_post(*old(state), *final(state), r, sender@),
{
    if !(*sender == state.config.owner) {
        return Err(ContractError::Unauthorized);
    }
    if state.config.immutable_mode {
        return Err(ContractError::ContractLocked);
    }
    state.config.immutable_mode = true;
    let mut attributes: Vec<crate::response::Attribute> = Vec::new();
    attributes.push(text_attr("action", "lock_ownership".to_owned()));
    Ok(Response { attributes, messages: Vec::new() })
}

/// What instantiation promises: the configuration defaults, the initial
/// supply credited in full to the owner, and every other record empty.
pub open spec fn instantiate_post(
    st: TokenState,
    resp: Response,
    sender: String,
    msg: InstantiateMsg,
) -> bool {
    let owner = chosen_owner(msg.owner, sender);
    &&& st.config.mint_interval_seconds == MINT_INTERVAL_SECONDS
    &&& st.config.fee_percent == Decimal { atomics: 10_000_000_000_000_000 }
    &&& st.config.fee_receiver == msg.fee_receiver
    &&& st.config.immutable_mode == false
    &&& st.config.mint_enabled == false
    &&& st.config.mint_amount == DEFAULT_MINT_AMOUNT
    &&& st.config.owner == owner
    &&& st.token_info.name == msg.name
    &&& st.token_info.symbol == msg.symbol
    &&& st.token_info.decimals == msg.decimals
    &&& st.token_info.total_supply == msg.initial_supply
    &&& st.total_burned == 0
    &&& forall|a: Seq<char>|
        #[trigger] st.balance_of(a) == if a == owner@ {
            msg.initial_supply
        } else {
            0
        }
    &&& forall|p: (Seq<char>, Seq<char>)| #[trigger] st.allowances@[p] is None
    &&& forall|a: Seq<char>| #[trigger] st.mint_info@[a] is None
    &&& resp.messages@.len() == 0
    &&& resp.attributes@.len() == 3
    &&& is_text_attr(resp.attributes@[0], "method"@, "instantiate"@)
    &&& is_text_attr(resp.attributes@[1], "owner"@, owner@)
    &&& is_amount_attr(resp.attributes@[2], "initial_supply"@, msg.initial_supply)
}

/// Creates the token: a one-percent transfer fee, a one-day mint
/// cooldown, minting disabled, and the whole initial supply on the
/// owner's account.
pub fn instantiate(sender: &String, msg: InstantiateMsg) -> (r: (TokenState, Response))
    ensures
        instantiate_post(r.0, r.1, *sender, msg),
        r.0.config.fee_percent.wf(),
{
    let owner = match msg.owner {
        Some(o) => o,
        None => sender.clone(),
    };
    let config = Config {
        mint_interval_seconds: MINT_INTERVAL_SECONDS,
        fee_percent: Decimal::percent(1),
        fee_receiver: msg.fee_receiver,
        immutable_mode: false,
        mint_enabled: false,
        mint_amount: DEFAULT_MINT_AMOUNT,
        owner: owner.clone(),
    };
    let token_info = TokenInfo {
        name: msg.name,
        symbol: msg.symbol,
        decimals: msg.decimals,
        total_supply: msg.initial_supply,
    };
    let mut balances = Ledger::new();
    balances.set_balance(&owner, msg.initial_supply);
    let mut attributes: Vec<crate::response::Attribute> = Vec::new();
    attributes.push(text_attr("method", "instantiate".to_owned()));
    attributes.push(text_attr("owner", owner.clone()));
    attributes.push(amount_attr("initial_supply", msg.initial_supply));
    let st = TokenState {
        config,
        token_info,
        total_burned: 0,
        balances,
        allowances: PairTable::new(),
        mint_info: AddrTable::new(),
    };
    (st, Response { attributes, messages: Vec::new() })
}

/// What a query promises: the stored value behind each question, and
/// `Unsupported` for the questions the contract does not answer.
pub open spec fn query_post(
    s: TokenState,
    msg: QueryMsg,
    r: Result<QueryResponse, ContractError>,
) -> bool {
    match msg {
        QueryMsg::Balance { address } => r matches Ok(QueryResponse::Balance(b)) && b.balance
            == s.balance_of(address@),
        QueryMsg::TokenInfo {} => r matches Ok(QueryResponse::TokenInfo(t)) && t.name
            == s.token_info.name && t.symbol == s.token_info.symbol && t.decimals
            == s.token_info.decimals && t.total_supply == s.token_info.total_supply,
        QueryMsg::GetConfig {} => r matches Ok(QueryResponse::Config(c)) && c == s.config,
        QueryMsg::GetMintInfo { address } => r matches Ok(QueryResponse::MintInfo(mi)) && mi == (
        match s.mint_info@[address@] {
            Some(m) => m,
            None => MintInfo { last_mint_time: 0 },
        }),
        QueryMsg::GetTotalBurned {} => r matches Ok(QueryResponse::TotalBurned(t)) && t.total_burned
            == s.total_burned,
        QueryMsg::Minter {} => r == Err::<QueryResponse, ContractError>(ContractError::Unsupported),
        QueryMsg::Allowance { .. } => r == Err::<QueryResponse, ContractError>(
            ContractError::Unsupported,
        ),
    }
}

/// Answers the read-only questions of the token contract.
pub fn query(state: &TokenState, msg: QueryMsg) -> (r: Result<QueryResponse, ContractError>)
    ensures
        query_post(*state, msg, r),
{
    match msg {
        QueryMsg::Balance { address } => {
            let balance = state.balances.balance(&address);
            Ok(QueryResponse::Balance(BalanceResponse { balance }))
        },
        QueryMsg::TokenInfo {} => {
            let t = state.token_info.value_copy();
            Ok(
                QueryResponse::TokenInfo(
                    TokenInfoResponse {
                        name: t.name,
                        symbol: t.symbol,
                        decimals: t.decimals,
                        total_supply: t.total_supply,
                    },
                ),
            )
        },
        QueryMsg::GetConfig {} => Ok(QueryResponse::Config(state.config.value_copy())),
        QueryMsg::GetMintInfo { address } => {
            let mi = match state.mint_info.get(&address) {
                Some(m) => m,
                None => MintInfo { last_mint_time: 0 },
            };
            Ok(QueryResponse::MintInfo(mi))
        },
        QueryMsg::GetTotalBurned {} => Ok(
            QueryResponse::TotalBurned(TotalBurnedResponse { total_burned: state.total_burned }),
        ),
        QueryMsg::Minter {} => Err(ContractError::Unsupported),
        QueryMsg::Allowance { .. } => Err(ContractError::Unsupported),
    }
}

/// Dispatches an action to its handler.  Beyond the per-action promises
/// it states the global ones: a failed call leaves the state untouched,
/// and a locked contract can never be unlocked.
pub fn execute(
    state: &mut TokenState,
    env_time: u64,
    sender: &String,
    msg: ExecuteMsg,
) -> (r: Result<Response, ContractError>)
    requires
        old(state).config.fee_percent.wf(),
    ensures
        msg matches ExecuteMsg::Transfer { recipient, amount } ==> transfer_post(
            *old(state),
            *final(state),
            r,
            sender@,
            recipient@,
            amount,
        ),
        msg matches ExecuteMsg::Burn { amount } ==> burn_post(
            *old(state),
            *final(state),
            r,
            sender@,
            amount,
        ),
        msg is Mint ==> mint_post(*old(state), *final(state), r, env_time, sender@),
        msg matches ExecuteMsg::TransferFrom { owner, recipient, amount } ==> transfer_from_post(
            *old(state),
            *final(state),
            r,
            owner@,
            sender@,
            recipient@,
            amount,
        ),
        msg matches ExecuteMsg::SetMintAmount { amount } ==> set_mint_amount_post(
            *old(state),
            *final(state),
            r,
            sender@,
            amount,
        ),
        msg matches ExecuteMsg::SetMintEnabled { enabled } ==> set_mint_enabled_post(
            *old(state),
            *final(state),
            r,
            sender@,
            enabled,
        ),
        msg is LockOwnership ==> lock_ownership_post(*old(state), *final(state), r, sender@),
        msg matches ExecuteMsg::TransferOwnership { new_owner } ==> transfer_ownership_post(
            *old(state),
            *final(state),
            r,
            sender@,
            new_owner,
        ),
        (msg is Send || msg is IncreaseAllowance || msg is DecreaseAllowance) ==> r
            == Err::<Response, ContractError>(ContractError::Unsupported) && *final(state) == *old(
            state,
        ),
        r is Err ==> *final(state) == *old(state),
        old(state).config.immutable_mode ==> final(state).config.immutable_mode,
{
    match msg {
        ExecuteMsg::Transfer { recipient, amount } => execute_transfer(
            state,
            sender,
            &recipient,
            amount,
        ),
        ExecuteMsg::Burn { amount } => execute_burn(state, sender, amount),
        ExecuteMsg::Mint => execute_mint(state, env_time, sender),
        ExecuteMsg::SetMintAmount { amount } => execute_set_mint_amount(state, sender, amount),
        ExecuteMsg::SetMintEnabled { enabled } => execute_set_mint_enabled(state, sender, enabled),
        ExecuteMsg::LockOwnership => execute_lock_ownership(state, sender),
        ExecuteMsg::TransferOwnership { new_owner } => execute_transfer_ownership(
            state,
            sender,
            new_owner,
        ),
        ExecuteMsg::TransferFrom { owner, recipient, amount } => execute_transfer_from(
            state,
            sender,
            &owner,
            &recipient,
            amount,
        ),
        ExecuteMsg::Send { .. } => Err(ContractError::Unsupported),
        ExecuteMsg::IncreaseAllowance { .. } => Err(ContractError::Unsupported),
        ExecuteMsg::DecreaseAllowance { .. } => Err(ContractError::Unsupported),
    }
}

} // verus!
