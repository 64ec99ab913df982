//! The node operations the console asks for, and the node's answers.
use vstd::prelude::*;

verus! {

/// One request to the node's RPC interface.
#[derive(Debug, PartialEq, Eq)]
pub enum RemoteCall {
    /// Load the wallet called `name`.
    LoadWallet { name: String },
    /// Ask for the height of the chain.
    GetBlockCount,
    /// Ask for the wallet balance.
    GetBalance,
    /// Ask for the transactions waiting in the mempool.
    GetRawMempool,
    /// Ask the wallet for a fresh receiving address.
    GetNewAddress,
    /// Mine `blocks` blocks paying to `address`.
    GenerateToAddress { blocks: u64, address: String },
    /// Pay `amount_sat` satoshis to `address`.
    SendToAddress { address: String, amount_sat: u64 },
}

/// The node's answer to one request.
#[derive(Debug, PartialEq, Eq)]
pub enum Reply {
    /// The wallet `name` is loaded.
    WalletLoaded { name: String },
    /// The chain is `count` blocks high.
    BlockCount { count: u64 },
    /// The wallet holds `sat` satoshis.
    Balance { sat: u64 },
    /// The mempool holds `pending` transactions.
    Mempool { pending: u64 },
    /// A fresh receiving address.
    NewAddress { address: String },
    /// The requested blocks were mined.
    BlocksGenerated,
    /// The payment was sent as transaction `txid`.
    TxId { txid: String },
    /// The request failed for the reason `cause`.
    Failed { cause: String },
}

} // verus!
