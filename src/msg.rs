//! Requests, responses, outbound instructions and errors of the controller.
use vstd::prelude::*;

verus! {

/// What a controller is created with.
#[derive(Clone, Debug, PartialEq, Eq)]
pub struct InstantiateMsg {
    pub collection_name: String,
    pub collection_symbol: String,
    pub uluna_price: u32,
    pub mint_cap: u32,
    pub nft_contract_addr: String,
}

/// The mutating requests.
#[derive(Clone, Debug, PartialEq, Eq)]
pub enum MyExecuteMsg {
    ChangeMinter { new_minter: String },
    ChangePrice { new_price: u32 },
    Withdraw { to_address: String },
    MintNft { owner: String, how_many: u32 },
    UpdateAllowedTokenIds { add: Vec<String>, remove: Vec<String> },
}

/// The read-only requests.
#[derive(Clone, Debug, PartialEq, Eq)]
pub enum QueryMsg {
    Owner {},
    ContractInfo {},
}

/// Shows who owns this controller.
#[derive(Clone, Debug, PartialEq, Eq)]
pub struct OwnerResponse {
    pub owner: String,
}

/// The collection's name and symbol.
#[derive(Clone, Debug, PartialEq, Eq)]
pub struct ContractInfoResponse {
    pub name: String,
    pub symbol: String,
}

/// The answer to a read-only request.
#[derive(Clone, Debug, PartialEq, Eq)]
pub enum QueryResponse {
    Owner(OwnerResponse),
    ContractInfo(ContractInfoResponse),
}

/// An amount of one currency.
#[derive(Clone, Debug, PartialEq, Eq)]
pub struct Coin {
    pub denom: String,
    pub amount: u128,
}

/// An instruction the controller sends out.
#[derive(Clone, Debug, PartialEq, Eq)]
pub enum CosmosMsg {
    /// Tells the issuing service to create `token_ids` for `owner`.
    Mint { contract_addr: String, owner: String, token_ids: Vec<String> },
    /// Tells the issuing service who may mint from now on.
    ChangeMinter { contract_addr: String, new_minter: String },
    /// Moves `amount` from the controller's account to `to_address`.
    BankSend { to_address: String, amount: Vec<Coin> },
}

/// What a successful request sends out.
#[derive(Clone, Debug, PartialEq, Eq)]
pub struct Response {
    pub messages: Vec<CosmosMsg>,
}

#[derive(Clone, Copy, Debug, PartialEq, Eq)]
pub enum ContractError {
    /// The caller is not the owner.
    Unauthorized,
    /// The payment is not exactly price times quantity.
    InsufficientFunds,
    /// The pool holds fewer identifiers than requested.
    InsufficientInventory,
}

} // verus!
