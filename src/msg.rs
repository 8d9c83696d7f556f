use crate::state::TransactionInfo;
use vstd::prelude::*;

verus! {

/// Parameters of bridge creation (none).
#[derive(Clone, Debug, PartialEq, Eq, Structural)]
pub struct InitMsg {}

/// State-changing requests.
#[derive(Clone, Debug, PartialEq, Eq)]
pub enum HandleMsg {
    /// Hand the admin role to `address` (admin only).
    ChangeAdmin { address: String },
    /// Unregister a coin (admin only).
    RemoveCoin { coin: String },
    /// Register a coin (admin only).
    AddCoin { coin: String, secret_addr: String, secret_hash: String, matic_addr: String },
    /// Burn the caller's tokens here and credit `recipient` on the foreign chain.
    TransferToMaticAddr { recipient: String, coin: String, amount: u128 },
    /// Mint tokens to `recipient` for a foreign-chain burn attested by the admin (admin only).
    ReceiveFromMaticAddr { recipient: String, coin: String, amount: u128 },
}

/// Read-only requests.
#[derive(Clone, Debug, PartialEq, Eq)]
pub enum QueryMsg {
    Admin {},
    Coins {},
    Coin { coin: String },
    GetTxs { start: u64 },
}

/// Outcome of a registry or inbound operation that did not fail.
#[derive(Clone, Copy, Debug, PartialEq, Eq, Structural)]
pub enum Status {
    CoinAdded,
    CoinAlreadyExists,
    CoinRemoved,
    CoinDoesNotExist,
    Transferred,
}

impl Status {
    /// The human-readable text of the status.
    pub fn message(&self) -> (r: String)
        ensures
            r@ == status_text(*self),
    {
        match self {
            Status::CoinAdded => String::from_str("Coin added"),
            Status::CoinAlreadyExists => String::from_str("Coin already exists"),
            Status::CoinRemoved => String::from_str("Coin removed"),
            Status::CoinDoesNotExist => String::from_str("Coin does not exist"),
            Status::Transferred => String::from_str("Transfered"),
        }
    }
}

/// Text of each status.
pub open spec fn status_text(s: Status) -> Seq<char> {
    match s {
        Status::CoinAdded => "Coin added"@,
        Status::CoinAlreadyExists => "Coin already exists"@,
        Status::CoinRemoved => "Coin removed"@,
        Status::CoinDoesNotExist => "Coin does not exist"@,
        Status::Transferred => "Transfered"@,
    }
}

/// Answers to state-changing requests.
#[derive(Clone, Debug, PartialEq, Eq)]
pub enum HandleAnswer {
    ChangeAdmin { old_admin: String, new_admin: String },
    GenericResponse { response: Status },
    TransferToMaticResponse { recipient: String, coin: String, amount: u128 },
}

/// Answers to read-only requests.
#[derive(Clone, Debug, PartialEq, Eq)]
pub enum QueryAnswer {
    Admin { admin: String },
    Coins { coins: Vec<String> },
    Coin { coin: String, secret_addr: String, secret_hash: String, matic_addr: String },
    Txs { txs: Vec<TransactionInfo> },
}

/// An instruction to a token contract, authenticated by its code hash.
#[derive(Clone, Debug, PartialEq, Eq)]
pub enum TokenMsg {
    /// Burn `amount` from the balance of `owner`.
    BurnFrom { owner: String, amount: u128, code_hash: String, contract_addr: String },
    /// Credit `recipient` with `amount` new tokens.
    Mint { recipient: String, amount: u128, code_hash: String, contract_addr: String },
}

/// Result of a successful state-changing request.
#[derive(Clone, Debug, PartialEq, Eq)]
pub struct HandleResponse {
    /// Instructions for token contracts, in order.
    pub messages: Vec<TokenMsg>,
    /// Answer returned to the caller.
    pub data: HandleAnswer,
}

/// Why a request failed.
#[derive(Clone, Copy, Debug, PartialEq, Eq, Structural)]
pub enum ContractError {
    /// A gated operation was requested by someone other than the admin.
    Unauthorized,
    /// The coin symbol is not registered.
    CoinNotFound,
    /// A local or foreign address is malformed.
    InvalidAddress,
    /// The state has not been stored yet.
    NotFound,
    /// The stored state could not be encoded or decoded.
    SerializationError,
    /// A ledger page starts past the end of the ledger.
    InvalidRange,
}

} // verus!
