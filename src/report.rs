//! What the console tells its operator.
use vstd::prelude::*;

verus! {

/// One line of console output.
#[derive(Debug, PartialEq, Eq)]
pub enum Message {
    WalletLoaded { name: String },
    WalletLoadFailed { cause: String },
    BlockCount { count: u64 },
    BlockCountFailed { cause: String },
    Balance { sat: u64 },
    BalanceFailed { cause: String },
    /// Startup is over and commands are read.
    Ready,
    TxId { txid: String },
    SendFailed { address: String, cause: String },
    CheckingMempool,
    MempoolFailed { cause: String },
    FoundTransactions,
    NoNewTransactions,
    NewAddressFailed { cause: String },
    /// A block was mined while `pending` transactions were waiting.
    BlockGenerated { pending: u64 },
    GenerateFailed { cause: String },
    MissingArgument,
    InvalidAmount,
    InvalidAddress,
    InvalidCommand,
}

/// Messages that report a malformed command; they go to the error stream.
pub open spec fn is_command_error(m: Message) -> bool {
    m is MissingArgument || m is InvalidAmount || m is InvalidAddress || m is InvalidCommand
}

impl Message {
    /// Whether the message belongs on the error stream.
    pub fn is_error(&self) -> (r: bool)
        ensures
            r == is_command_error(*self),
    {
        match self {
            Message::MissingArgument | Message::InvalidAmount | Message::InvalidAddress
            | Message::InvalidCommand => true,
            _ => false,
        }
    }
}

} // verus!
