//! The mining check: look at the mempool and, when it holds transactions,
//! mine one block to a fresh wallet address.
use vstd::prelude::*;
use crate::remote::{RemoteCall, Reply};
use crate::report::Message;

verus! {

/// Which answer a mining check waits for.
#[derive(Debug, Clone, Copy, PartialEq, Eq, Structural)]
pub enum MiningStage {
    /// The mempool report.
    AwaitMempool,
    /// A fresh address; `pending` transactions were seen.
    AwaitAddress { pending: u64 },
    /// The mined block; `pending` transactions were seen.
    AwaitBlock { pending: u64 },
}

/// `m` when reporting is on, nothing otherwise.
pub open spec fn told(verbose: bool, m: Seq<Message>) -> Seq<Message> {
    if verbose {
        m
    } else {
        seq![]
    }
}

/// Whether `reply` answers the request a check in `stage` has outstanding.
pub open spec fn mining_expects(stage: MiningStage, reply: Reply) -> bool {
    reply is Failed || match stage {
        MiningStage::AwaitMempool => reply is Mempool,
        MiningStage::AwaitAddress { .. } => reply is NewAddress,
        MiningStage::AwaitBlock { .. } => reply is BlocksGenerated,
    }
}

/// The next stage (none once the check is over), what is reported, and the
/// next request, when a check in `stage` receives `reply`.
pub open spec fn mining_next(verbose: bool, stage: MiningStage, reply: Reply) -> (
    Option<MiningStage>,
    Seq<Message>,
    Option<RemoteCall>,
) {
    match (stage, reply) {
        (MiningStage::AwaitMempool, Reply::Mempool { pending }) => if pending == 0 {
            (None, told(verbose, seq![Message::NoNewTransactions]), None)
        } else {
            (
                Some(MiningStage::AwaitAddress { pending }),
                told(verbose, seq![Message::FoundTransactions]),
                Some(RemoteCall::GetNewAddress),
            )
        },
        (MiningStage::AwaitMempool, Reply::Failed { cause }) => (
            None,
            told(verbose, seq![Message::MempoolFailed { cause }]),
            None,
        ),
        (MiningStage::AwaitAddress { pending }, Reply::NewAddress { address }) => (
            Some(MiningStage::AwaitBlock { pending }),
            seq![],
            Some(RemoteCall::GenerateToAddress { blocks: 1, address }),
        ),
        (MiningStage::AwaitAddress { .. }, Reply::Failed { cause }) => (
            None,
            told(verbose, seq![Message::NewAddressFailed { cause }]),
            None,
        ),
        (MiningStage::AwaitBlock { pending }, Reply::BlocksGenerated) => (
            None,
            told(verbose, seq![Message::BlockGenerated { pending }]),
            None,
        ),
        (MiningStage::AwaitBlock { .. }, Reply::Failed { cause }) => (
            None,
            told(verbose, seq![Message::GenerateFailed { cause }]),
            None,
        ),
        _ => (None, seq![], None),
    }
}

/// Starts a mining check: it first asks for the mempool.
pub fn start_mining(verbose: bool) -> (r: (MiningStage, Vec<Message>, RemoteCall))
    ensures
        r.0 == MiningStage::AwaitMempool,
        r.1@ == told(verbose, seq![Message::CheckingMempool]),
        r.2 == RemoteCall::GetRawMempool,
{
    let mut out: Vec<Message> = Vec::new();
    if verbose {
        out.push(Message::CheckingMempool);
    }
    proof {
        assert(out@ =~= told(verbose, seq![Message::CheckingMempool]));
    }
    (MiningStage::AwaitMempool, out, RemoteCall::GetRawMempool)
}

/// Whether `reply` answers the request a check in `stage` has outstanding.
pub fn mining_accepts(stage: &MiningStage, reply: &Reply) -> (r: bool)
    ensures
        r == mining_expects(*stage, *reply),
{
    match (stage, reply) {
        (_, Reply::Failed { .. }) => true,
        (MiningStage::AwaitMempool, Reply::Mempool { .. }) => true,
        (MiningStage::AwaitAddress { .. }, Reply::NewAddress { .. }) => true,
        (MiningStage::AwaitBlock { .. }, Reply::BlocksGenerated) => true,
        _ => false,
    }
}

/// Wraps one message, shown only when reporting is on.
fn say(verbose: bool, m: Message) -> (r: Vec<Message>)
    ensures
        r@ == told(verbose, seq![m]),
{
    let mut out: Vec<Message> = Vec::new();
    if verbose {
        out.push(m);
    }
    proof {
        assert(out@ =~= told(verbose, seq![m]));
    }
    out
}

/// Advances a mining check in `stage` by the node's `reply`. At most one
/// block is asked for, and only after a non-empty mempool report and a fresh
/// address; nothing is reported when `verbose` is off.
pub fn mining_step(verbose: bool, stage: MiningStage, reply: Reply) -> (r: (
    Option<MiningStage>,
    Vec<Message>,
    Option<RemoteCall>,
))
    requires
        mining_expects(stage, reply),
    ensures
        (r.0, r.1@, r.2) == mining_next(verbose, stage, reply),
{
    match stage {
        MiningStage::AwaitMempool => match reply {
            Reply::Mempool { pending } => {
                if pending == 0 {
                    (None, say(verbose, Message::NoNewTransactions), None)
                } else {
                    (
                        Some(MiningStage::AwaitAddress { pending }),
                        say(verbose, Message::FoundTransactions),
                        Some(RemoteCall::GetNewAddress),
                    )
                }
            },
            Reply::Failed { cause } => (None, say(verbose, Message::MempoolFailed { cause }), None),
            _ => (None, Vec::new(), None),
        },
        MiningStage::AwaitAddress { pending } => match reply {
            Reply::NewAddress { address } => (
                Some(MiningStage::AwaitBlock { pending }),
                Vec::new(),
                Some(RemoteCall::GenerateToAddress { blocks: 1, address }),
            ),
            Reply::Failed { cause } => (
                None,
                say(verbose, Message::NewAddressFailed { cause }),
                None,
            ),
            _ => (None, Vec::new(), None),
        },
        MiningStage::AwaitBlock { pending } => match reply {
            Reply::BlocksGenerated => (
                None,
                say(verbose, Message::BlockGenerated { pending }),
                None,
            ),
            Reply::Failed { cause } => (None, say(verbose, Message::GenerateFailed { cause }), None),
            _ => (None, Vec::new(), None),
        },
    }
}

} // verus!
