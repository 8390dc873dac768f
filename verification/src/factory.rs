use crate::error::ContractError;
use crate::response::{is_text_attr, text_attr, BankPayment, Response};
use crate::table::{AddrTable, ValueCopy};
use vstd::prelude::*;

verus! {

/// Amount added to a factory token's supply by each mint.
pub const FACTORY_MINT_AMOUNT: u128 = 40_000_000_000_000_000;

/// The message that creates the factory.
pub struct InstantiateMsg {
    pub owner: String,
}

/// The actions the factory executes.
pub enum ExecuteMsg {
    CreateToken { name: String, symbol: String, initial_supply: u128 },
    Mint { token_address: String },
    Transfer { token_address: String, recipient: String, amount: u128 },
    SetMintEnabled { token_address: String, enabled: bool },
    LockOwnership { token_address: String },
}

/// The factory's own record of a token it administers: a parallel
/// register, independent of any ledger the token itself keeps.
pub struct TokenInfo {
    pub name: String,
    pub symbol: String,
    pub supply: u128,
    pub fee_receiver: String,
    pub creator: String,
    pub mint_enabled: bool,
    pub immutable_mode: bool,
}

impl ValueCopy for TokenInfo {
    fn value_copy(&self) -> (r: TokenInfo) {
        TokenInfo {
            name: self.name.clone(),
            symbol: self.symbol.clone(),
            supply: self.supply,
            fee_receiver: self.fee_receiver.clone(),
            creator: self.creator.clone(),
            mint_enabled: self.mint_enabled,
            immutable_mode: self.immutable_mode,
        }
    }
}

/// The whole storage scope of the factory contract.
pub struct FactoryState {
    pub owner: String,
    pub all_tokens: Vec<String>,
    pub creator_tokens: Vec<(String, String)>,
    pub token_info: AddrTable<TokenInfo>,
}

/// Creates the factory with its administrator and no tokens.
pub fn instantiate(msg: InstantiateMsg) -> (r: FactoryState)
    ensures
        r.owner == msg.owner,
        r.all_tokens@ =~= Seq::<String>::empty(),
        r.creator_tokens@ =~= Seq::<(String, String)>::empty(),
        forall|a: Seq<char>| #[trigger] r.token_info@[a] is None,
{
    FactoryState {
        owner: msg.owner,
        all_tokens: Vec::new(),
        creator_tokens: Vec::new(),
        token_info: AddrTable::new(),
    }
}

/// What registering a token promises.  The caller's own address doubles
/// as the new token's identifier, so a second registration by the same
/// caller silently overwrites the record while both lists grow again.
pub open spec fn create_token_post(
    pre: FactoryState,
    post: FactoryState,
    r: Result<Response, ContractError>,
    sender: String,
    name: String,
    symbol: String,
    initial_supply: u128,
) -> bool {
    &&& r matches Ok(resp) && {
        &&& resp.messages@.len() == 0
        &&& resp.attributes@.len() == 1
        &&& is_text_attr(resp.attributes@[0], "action"@, "create_token"@)
    }
    &&& post.owner == pre.owner
    &&& post.token_info@ == pre.token_info@.insert(
        sender@,
        Some(
            TokenInfo {
                name,
                symbol,
                supply: initial_supply,
                fee_receiver: pre.owner,
                creator: sender,
                mint_enabled: false,
                immutable_mode: false,
            },
        ),
    )
    &&& post.all_tokens@ == pre.all_tokens@.push(sender)
    &&& post.creator_tokens@ == pre.creator_tokens@.push((sender, sender))
}

/// Registers a token record under the caller's address and appends it to
/// the global and the per-creator list.
pub fn create_token(
    state: &mut FactoryState,
    sender: &String,
    name: String,
    symbol: String,
    initial_supply: u128,
) -> (r: Result<Response, ContractError>)
    ensures
        create_token_post(
            *old(state),
            *final(state),
            r,
            *sender,
            name,
            symbol,
            initial_supply,
        ),
{
    let info = TokenInfo {
        name,
        symbol,
        supply: initial_supply,
        fee_receiver: state.owner.clone(),
        creator: sender.clone(),
        mint_enabled: false,
        immutable_mode: false,
    };
    state.token_info.set(sender, info);
    state.all_tokens.push(sender.clone());
    state.creator_tokens.push((sender.clone(), sender.clone()));
    let mut attributes: Vec<crate::response::Attribute> = Vec::new();
    attributes.push(text_attr("action", "create_token".to_owned()));
    Ok(Response { attributes, messages: Vec::new() })
}

/// The parts of a factory state a per-token mutation leaves alone.
pub open spec fn only_token_info_changed(pre: FactoryState, post: FactoryState) -> bool {
    &&& post.owner == pre.owner
    &&& post.all_tokens == pre.all_tokens
    &&& post.creator_tokens == pre.creator_tokens
}

/// What minting on a factory token promises: the register's supply grows
/// by the fixed amount whenever the token exists and its gate is open.
pub open spec fn factory_mint_post(
    pre: FactoryState,
    post: FactoryState,
    r: Result<Response, ContractError>,
    token_address: Seq<char>,
) -> bool {
    match pre.token_info@[token_address] {
        None => {
            &&& r == Err::<Response, ContractError>(ContractError::Std)
            &&& post == pre
        },
        Some(t) => {
            if !t.mint_enabled {
                &&& r == Err::<Response, ContractError>(ContractError::MintDisabled)
                &&& post == pre
            } else if t.supply + FACTORY_MINT_AMOUNT > u128::MAX {
                &&& r == Err::<Response, ContractError>(ContractError::ArithmeticOverflow)
                &&& post == pre
            } else {
                &&& r matches Ok(resp) && {
                    &&& resp.messages@.len() == 0
                    &&& resp.attributes@.len() == 1
                    &&& is_text_attr(resp.attributes@[0], "action"@, "mint"@)
                }
                &&& post.token_info@ == pre.token_info@.insert(
                    token_address,
                    Some(TokenInfo { supply: (t.supply + FACTORY_MINT_AMOUNT) as u128, ..t }),
                )
                &&& only_token_info_changed(pre, post)
            }
        },
    }
}

/// Raises the registered supply of `token_address` by the fixed mint
/// amount.
pub fn mint(state: &mut FactoryState, token_address: &String) -> (r: Result<
    Response,
    ContractError,
>)
    ensures
        factory_mint_post(*old(state), *final(state), r, token_address@),
{
    let t = match state.token_info.get(token_address) {
        Some(t) => t,
        None => {
            return Err(ContractError::Std);
        },
    };
    if !t.mint_enabled {
        return Err(ContractError::MintDisabled);
    }
    let new_supply = match t.supply.checked_add(FACTORY_MINT_AMOUNT) {
        Some(v) => v,
        None => {
            return Err(ContractError::ArithmeticOverflow);
        },
    };
    state.token_info.set(token_address, TokenInfo { supply: new_supply, ..t });
    let mut attributes: Vec<crate::response::Attribute> = Vec::new();
    attributes.push(text_attr("action", "mint".to_owned()));
    Ok(Response { attributes, messages: Vec::new() })
}

/// What a factory transfer promises: no state is read or written; the
/// host is told to pay one percent of the amount, rounded down, to the
/// token address and the rest to the recipient, in native currency.
pub open spec fn factory_transfer_post(
    r: Result<Response, ContractError>,
    token_address: Seq<char>,
    recipient: Seq<char>,
    amount: u128,
) -> bool {
    let fee = amount as int / 100;
    &&& r matches Ok(resp) && {
        &&& resp.attributes@.len() == 1
        &&& is_text_attr(resp.attributes@[0], "action"@, "transfer"@)
        &&& resp.messages@.len() == 2
        &&& resp.messages@[0].to_address@ == token_address
        &&& resp.messages@[0].denom@ == "utoken"@
        &&& resp.messages@[0].amount == fee
        &&& resp.messages@[1].to_address@ == recipient
        &&& resp.messages@[1].denom@ == "utoken"@
        &&& resp.messages@[1].amount == amount - fee
    }
}

/// Emits the two native-currency payments of a factory transfer: the
/// one-percent fee to the token address, the remainder to the recipient.
pub fn transfer(token_address: &String, recipient: &String, amount: u128) -> (r: Result<
    Response,
    ContractError,
>)
    ensures
        factory_transfer_post(r, token_address@, recipient@, amount),
{
    let fee: u128 = amount / 100;
    let net: u128 = amount - fee;
    let mut messages: Vec<BankPayment> = Vec::new();
    messages.push(
        BankPayment {
            to_address: token_address.clone(),
            denom: "utoken".to_owned(),
            amount: fee,
        },
    );
    messages.push(
        BankPayment { to_address: recipient.clone(), denom: "utoken".to_owned(), amount: net },
    );
    let mut attributes: Vec<crate::response::Attribute> = Vec::new();
    attributes.push(text_attr("action", "transfer".to_owned()));
    Ok(Response { attributes, messages })
}

/// What switching a factory token's mint gate promises.
pub open spec fn factory_set_mint_enabled_post(
    pre: FactoryState,
    post: FactoryState,
    r: Result<Response, ContractError>,
    token_address: Seq<char>,
    enabled: bool,
) -> bool {
    match pre.token_info@[token_address] {
        None => {
            &&& r == Err::<Response, ContractError>(ContractError::Std)
            &&& post == pre
        },
        Some(t) => {
            if t.immutable_mode {
                &&& r == Err::<Response, ContractError>(ContractError::ContractLocked)
                &&& post == pre
            } else {
                &&& r matches Ok(resp) && {
                    &&& resp.messages@.len() == 0
                    &&& resp.attributes@.len() == 1
                    &&& is_text_attr(resp.attributes@[0], "action"@, "set_mint_enabled"@)
                }
                &&& post.token_info@ == pre.token_info@.insert(
                    token_address,
                    Some(TokenInfo { mint_enabled: enabled, ..t }),
                )
                &&& only_token_info_changed(pre, post)
            }
        },
    }
}

/// Opens or closes the mint gate of a registered token, unless its
/// record is locked.
pub fn set_mint_enabled(state: &mut FactoryState, token_address: &String, enabled: bool) -> (r:
    Result<Response, ContractError>)
    ensures
        factory_set_mint_enabled_post(*old(state), *final(state), r, token_address@, enabled),
{
    let t = match state.token_info.get(token_address) {
        Some(t) => t,
        None => {
            return Err(ContractError::Std);
        },
    };
    if t.immutable_mode {
        return Err(ContractError::ContractLocked);
    }
    state.token_info.set(token_address, TokenInfo { mint_enabled: enabled, ..t });
    let mut attributes: Vec<crate::response::Attribute> = Vec::new();
    attributes.push(text_attr("action", "set_mint_enabled".to_owned()));
    Ok(Response { attributes, messages: Vec::new() })
}

/// What locking a factory token promises: the flag is set for good; the
/// call carries no caller check and succeeds again on a locked record.
pub open spec fn factory_lock_ownership_post(
    pre: FactoryState,
    post: FactoryState,
    r: Result<Response, ContractError>,
    token_address: Seq<char>,
) -> bool {
    match pre.token_info@[token_address] {
        None => {
            &&& r == Err::<Response, ContractError>(ContractError::Std)
            &&& post == pre
        },
        Some(t) => {
            &&& r matches Ok(resp) && {
                &&& resp.messages@.len() == 0
                &&& resp.attributes@.len() == 1
                &&& is_text_attr(resp.attributes@[0], "action"@, "lock_ownership"@)
            }
            &&& post.token_info@ == pre.token_info@.insert(
                token_address,
                Some(TokenInfo { immutable_mode: true, ..t }),
            )
            &&& only_token_info_changed(pre, post)
        },
    }
}

/// Locks a registered token's record against further gate changes.
pub fn lock_ownership(state: &mut FactoryState, token_address: &String) -> (r: Result<
    Response,
    ContractError,
>)
    ensures
        factory_lock_ownership_post(*old(state), *final(state), r, token_address@),
{
    let t = match state.token_info.get(token_address) {
        Some(t) => t,
        None => {
            return Err(ContractError::Std);
        },
    };
    state.token_info.set(token_address, TokenInfo { immutable_mode: true, ..t });
    let mut attributes: Vec<crate::response::Attribute> = Vec::new();
    attributes.push(text_attr("action", "lock_ownership".to_owned()));
    Ok(Response { attributes, messages: Vec::new() })
}

/// Dispatches a factory action to its handler; a failed call leaves the
/// state untouched.
pub fn execute(state: &mut FactoryState, sender: &String, msg: ExecuteMsg) -> (r: Result<
    Response,
    ContractError,
>)
    ensures
        msg matches ExecuteMsg::CreateToken { name, symbol, initial_supply } ==> create_token_post(
            *old(state),
            *final(state),
            r,
            *sender,
            name,
            symbol,
            initial_supply,
        ),
        msg matches ExecuteMsg::Mint { token_address } ==> factory_mint_post(
            *old(state),
            *final(state),
            r,
            token_address@,
        ),
        msg matches ExecuteMsg::Transfer { token_address, recipient, amount } ==> {
            &&& factory_transfer_post(r, token_address@, recipient@, amount)
            &&& *final(state) == *old(state)
        },
        msg matches ExecuteMsg::SetMintEnabled { token_address, enabled }
            ==> factory_set_mint_enabled_post(
            *old(state),
            *final(state),
            r,
            token_address@,
            enabled,
        ),
        msg matches ExecuteMsg::LockOwnership { token_address } ==> factory_lock_ownership_post(
            *old(state),
            *final(state),
            r,
            token_address@,
        ),
        r is Err ==> *final(state) == *old(state),
{
    match msg {
        ExecuteMsg::CreateToken { name, symbol, initial_supply } => create_token(
            state,
            sender,
            name,
            symbol,
            initial_supply,
        ),
        ExecuteMsg::Mint { token_address } => mint(state, &token_address),
        ExecuteMsg::Transfer { token_address, recipient, amount } => transfer(
            &token_address,
            &recipient,
            amount,
        ),
        ExecuteMsg::SetMintEnabled { token_address, enabled } => set_mint_enabled(
            state,
            &token_address,
            enabled,
        ),
        ExecuteMsg::LockOwnership { token_address } => lock_ownership(state, &token_address),
    }
}

} // verus!
