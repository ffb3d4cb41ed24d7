//! A single-owner controller that sells identifiers from a pool at a fixed
//! price and tells an external issuing service to create them.
pub mod contract;
pub mod laws;
pub mod msg;
pub mod order;
pub mod payment;
pub mod pool;

pub use contract::Cw721Controller;
pub use msg::{
    Coin, ContractError, ContractInfoResponse, CosmosMsg, InstantiateMsg, MyExecuteMsg,
    OwnerResponse, QueryMsg, QueryResponse, Response,
};
