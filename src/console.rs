//! The console's decisions: which request each command or tick leads to, how
//! each reply of the node moves the job in progress on, and what is reported.
//!
//! The console handles one event at a time. While a job waits for the node,
//! further events are queued and started, in order, once it is over.
use vstd::prelude::*;
use crate::command::{is_keyword, parses_as, Command, CommandError};
use crate::miner::{
    mining_accepts, mining_expects, mining_next, mining_step, start_mining, MiningStage,
};
use crate::remote::{RemoteCall, Reply};
use crate::report::Message;

verus! {

/// Which answer the startup report waits for.
#[derive(Debug, Clone, Copy, PartialEq, Eq, Structural)]
pub enum StartupStage {
    LoadWallet,
    CountBlocks,
    CheckBalance,
}

/// Work that has a request outstanding at the node.
#[derive(Debug, PartialEq, Eq)]
pub enum Job {
    /// Loading the wallet, then reporting height and balance.
    Startup { stage: StartupStage },
    /// A payment to `address`.
    Send { address: String },
    /// A balance query.
    Balance,
    /// A height query.
    BlockCount,
    /// A mining check, reported when `verbose`.
    Mining { verbose: bool, stage: MiningStage },
}

/// Something the console is asked to handle.
#[derive(Debug, PartialEq, Eq)]
pub enum Event {
    /// An input line, as read by `parse_command`.
    Input { command: Result<Command, CommandError> },
    /// The background timer fired.
    Tick,
}

/// The report for a malformed command.
pub open spec fn error_message(e: CommandError) -> Message {
    match e {
        CommandError::MissingArgument => Message::MissingArgument,
        CommandError::InvalidAmount => Message::InvalidAmount,
        CommandError::InvalidAddress => Message::InvalidAddress,
        CommandError::InvalidCommand => Message::InvalidCommand,
    }
}

/// The job started by `event` on an idle console, what is reported at once,
/// and the request sent to the node.
pub open spec fn begin(event: Event, background_mining: bool) -> (
    Option<Job>,
    Seq<Message>,
    Option<RemoteCall>,
) {
    match event {
        Event::Tick => if background_mining {
            (
                Some(Job::Mining { verbose: false, stage: MiningStage::AwaitMempool }),
                seq![],
                Some(RemoteCall::GetRawMempool),
            )
        } else {
            (None, seq![], None)
        },
        Event::Input { command } => match command {
            Err(e) => (None, seq![error_message(e)], None),
            Ok(Command::Mine) => (
                Some(Job::Mining { verbose: true, stage: MiningStage::AwaitMempool }),
                seq![Message::CheckingMempool],
                Some(RemoteCall::GetRawMempool),
            ),
            Ok(Command::Balance) => (Some(Job::Balance), seq![], Some(RemoteCall::GetBalance)),
            Ok(Command::BlockCount) => (
                Some(Job::BlockCount),
                seq![],
                Some(RemoteCall::GetBlockCount),
            ),
            Ok(Command::SendToAddress { address, amount_sat }) => (
                Some(Job::Send { address }),
                seq![],
                Some(RemoteCall::SendToAddress { address, amount_sat }),
            ),
        },
    }
}

/// A malformed command is answered with its one report and sends no request
/// to the node.
pub proof fn lemma_malformed_command_sends_nothing(e: CommandError, background_mining: bool)
    ensures
        begin(Event::Input { command: Err(e) }, background_mining) == (
            None::<Job>,
            seq![error_message(e)],
            None::<RemoteCall>,
        ),
{
}

/// A line that is blank, or whose first token is no command keyword, is
/// answered with exactly one invalid-command report and no request.
pub proof fn lemma_unknown_keyword_is_refused(
    t: Seq<Seq<char>>,
    c: Result<Command, CommandError>,
    background_mining: bool,
)
    requires
        parses_as(t, c),
        t.len() == 0 || !is_keyword(t[0]),
    ensures
        begin(Event::Input { command: c }, background_mining) == (
            None::<Job>,
            seq![Message::InvalidCommand],
            None::<RemoteCall>,
        ),
{
}

/// A payment request without both an address and an amount is answered
/// with a missing-argument report and no request.
pub proof fn lemma_short_payment_is_refused(
    t: Seq<Seq<char>>,
    c: Result<Command, CommandError>,
    background_mining: bool,
)
    requires
        parses_as(t, c),
        t.len() > 0,
        t[0] == "sendtoaddress"@,
        t.len() < 3,
    ensures
        begin(Event::Input { command: c }, background_mining) == (
            None::<Job>,
            seq![Message::MissingArgument],
            None::<RemoteCall>,
        ),
{
    reveal_strlit("sendtoaddress");
    reveal_strlit("mine");
    reveal_strlit("balance");
    reveal_strlit("blockcount");
    assert("sendtoaddress"@.len() != "mine"@.len());
    assert("sendtoaddress"@.len() != "balance"@.len());
    assert("sendtoaddress"@.len() != "blockcount"@.len());
}

/// Whether `reply` answers the request that `job` has outstanding.
pub open spec fn job_expects(job: Job, reply: Reply) -> bool {
    match job {
        Job::Startup { stage } => reply is Failed || match stage {
            StartupStage::LoadWallet => reply is WalletLoaded,
            StartupStage::CountBlocks => reply is BlockCount,
            StartupStage::CheckBalance => reply is Balance,
        },
        Job::Send { .. } => reply is Failed || reply is TxId,
        Job::Balance => reply is Failed || reply is Balance,
        Job::BlockCount => reply is Failed || reply is BlockCount,
        Job::Mining { stage, .. } => mining_expects(stage, reply),
    }
}

/// What follows when `job` receives `reply`: the job that goes on (none when
/// it is over), what is reported, and the next request.
pub open spec fn job_next(job: Job, reply: Reply) -> (Option<Job>, Seq<Message>, Option<RemoteCall>) {
    match job {
        Job::Startup { stage } => match (stage, reply) {
            (StartupStage::LoadWallet, Reply::WalletLoaded { name }) => (
                Some(Job::Startup { stage: StartupStage::CountBlocks }),
                seq![Message::WalletLoaded { name }],
                Some(RemoteCall::GetBlockCount),
            ),
            (StartupStage::LoadWallet, Reply::Failed { cause }) => (
                Some(Job::Startup { stage: StartupStage::CountBlocks }),
                seq![Message::WalletLoadFailed { cause }],
                Some(RemoteCall::GetBlockCount),
            ),
            (StartupStage::CountBlocks, Reply::BlockCount { count }) => (
                Some(Job::Startup { stage: StartupStage::CheckBalance }),
                seq![Message::BlockCount { count }],
                Some(RemoteCall::GetBalance),
            ),
            (StartupStage::CountBlocks, Reply::Failed { cause }) => (
                Some(Job::Startup { stage: StartupStage::CheckBalance }),
                seq![Message::BlockCountFailed { cause }],
                Some(RemoteCall::GetBalance),
            ),
            (StartupStage::CheckBalance, Reply::Balance { sat }) => (
                None,
                seq![Message::Balance { sat }, Message::Ready],
                None,
            ),
            (StartupStage::CheckBalance, Reply::Failed { cause }) => (
                None,
                seq![Message::BalanceFailed { cause }, Message::Ready],
                None,
            ),
            _ => (None, seq![], None),
        },
        Job::Send { address } => match reply {
            Reply::TxId { txid } => (None, seq![Message::TxId { txid }], None),
            Reply::Failed { cause } => (None, seq![Message::SendFailed { address, cause }], None),
            _ => (None, seq![], None),
        },
        Job::Balance => match reply {
            Reply::Balance { sat } => (None, seq![Message::Balance { sat }], None),
            Reply::Failed { cause } => (None, seq![Message::BalanceFailed { cause }], None),
            _ => (None, seq![], None),
        },
        Job::BlockCount => match reply {
            Reply::BlockCount { count } => (None, seq![Message::BlockCount { count }], None),
            Reply::Failed { cause } => (None, seq![Message::BlockCountFailed { cause }], None),
            _ => (None, seq![], None),
        },
        Job::Mining { verbose, stage } => {
            let (next, said, call) = mining_next(verbose, stage, reply);
            match next {
                Some(s) => (Some(Job::Mining { verbose, stage: s }), said, call),
                None => (None, said, call),
            }
        },
    }
}

/// Starts queued events in order until one leaves a job waiting for the node
/// or the queue is empty; reports accumulate after `said`.
pub open spec fn drain(
    job: Option<Job>,
    queue: Seq<Event>,
    background_mining: bool,
    said: Seq<Message>,
    call: Option<RemoteCall>,
) -> (Option<Job>, Seq<Event>, Seq<Message>, Option<RemoteCall>)
    decreases queue.len(),
{
    if job is Some || queue.len() == 0 {
        (job, queue, said, call)
    } else {
        let (j, m, c) = begin(queue[0], background_mining);
        drain(j, queue.drop_first(), background_mining, said + m, c)
    }
}

proof fn lemma_drain_settles(
    job: Option<Job>,
    queue: Seq<Event>,
    background_mining: bool,
    said: Seq<Message>,
    call: Option<RemoteCall>,
)
    ensures
        ({
            let r = drain(job, queue, background_mining, said, call);
            r.0 is Some || r.1.len() == 0
        }),
    decreases queue.len(),
{
    if !(job is Some || queue.len() == 0) {
        let (j, m, c) = begin(queue[0], background_mining);
        lemma_drain_settles(j, queue.drop_first(), background_mining, said + m, c);
    }
}

/// The console: the job in progress, the events waiting behind it, and
/// whether timer ticks run a (silent) mining check.
#[derive(Debug)]
pub struct Console {
    job: Option<Job>,
    backlog: Vec<Event>,
    background_mining: bool,
}

impl Console {
    /// The job waiting for the node, if any.
    pub closed spec fn pending(&self) -> Option<Job> {
        self.job
    }

    /// The events waiting for the job in progress to end, oldest first.
    pub closed spec fn queued(&self) -> Seq<Event> {
        self.backlog@
    }

    /// Whether timer ticks run a mining check.
    pub closed spec fn mines_in_background(&self) -> bool {
        self.background_mining
    }

    /// Events wait only behind a job in progress.
    pub open spec fn wf(&self) -> bool {
        self.pending() is None ==> self.queued().len() == 0
    }

    /// A console that starts by loading the wallet `wallet_name`; the request
    /// is returned for the caller to send.
    pub fn new(wallet_name: String, background_mining: bool) -> (r: (Console, RemoteCall))
        ensures
            r.0.wf(),
            r.0.pending() == Some(Job::Startup { stage: StartupStage::LoadWallet }),
            r.0.queued().len() == 0,
            r.0.mines_in_background() == background_mining,
            r.1 == (RemoteCall::LoadWallet { name: wallet_name }),
    {
        let console = Console {
            job: Some(Job::Startup { stage: StartupStage::LoadWallet }),
            backlog: Vec::new(),
            background_mining,
        };
        (console, RemoteCall::LoadWallet { name: wallet_name })
    }

    /// Whether a job waits for the node.
    pub fn is_busy(&self) -> (r: bool)
        ensures
            r == self.pending() is Some,
    {
        self.job.is_some()
    }

    /// Whether `reply` answers the request outstanding at the node.
    pub fn accepts(&self, reply: &Reply) -> (r: bool)
        ensures
            r == (self.pending() is Some && job_expects(self.pending().unwrap(), *reply)),
    {
        match &self.job {
            None => false,
            Some(job) => match job {
                Job::Startup { stage } => match (stage, reply) {
                    (_, Reply::Failed { .. }) => true,
                    (StartupStage::LoadWallet, Reply::WalletLoaded { .. }) => true,
                    (StartupStage::CountBlocks, Reply::BlockCount { .. }) => true,
                    (StartupStage::CheckBalance, Reply::Balance { .. }) => true,
                    _ => false,
                },
                Job::Send { .. } => matches!(reply, Reply::Failed { .. } | Reply::TxId { .. }),
                Job::Balance => matches!(reply, Reply::Failed { .. } | Reply::Balance { .. }),
                Job::BlockCount => matches!(
                    reply,
                    Reply::Failed { .. } | Reply::BlockCount { .. }
                ),
                Job::Mining { stage, .. } => mining_accepts(stage, reply),
            },
        }
    }

    /// Hands an event to the console. An idle console starts it; a busy one
    /// queues it and issues no request, so no two events are ever served at
    /// once.
    pub fn offer(&mut self, event: Event) -> (r: (Vec<Message>, Option<RemoteCall>))
        requires
            old(self).wf(),
        ensures
            final(self).wf(),
            final(self).mines_in_background() == old(self).mines_in_background(),
            old(self).pending() is Some ==> {
                &&& final(self).pending() == old(self).pending()
                &&& final(self).queued() == old(self).queued().push(event)
                &&& r.0@.len() == 0
                &&& r.1 is None
            },
            old(self).pending() is None ==> {
                &&& (final(self).pending(), r.0@, r.1) == begin(
                    event,
                    old(self).mines_in_background(),
                )
                &&& final(self).queued().len() == 0
            },
    {
        if self.job.is_some() {
            self.backlog.push(event);
            (Vec::new(), None)
        } else {
            let (job, said, call) = start_event(event, self.background_mining);
            self.job = job;
            (said, call)
        }
    }

    /// Hands the node's answer to the job in progress. Once the job is over,
    /// queued events are started in the order they came.
    pub fn deliver(&mut self, reply: Reply) -> (r: (Vec<Message>, Option<RemoteCall>))
        requires
            old(self).wf(),
            old(self).pending() is Some,
            job_expects(old(self).pending().unwrap(), reply),
        ensures
            final(self).wf(),
            final(self).mines_in_background() == old(self).mines_in_background(),
            ({
                let (j, m, c) = job_next(old(self).pending().unwrap(), reply);
                (final(self).pending(), final(self).queued(), r.0@, r.1) == drain(
                    j,
                    old(self).queued(),
                    old(self).mines_in_background(),
                    m,
                    c,
                )
            }),
    {
        let job = match self.job.take() {
            Some(job) => job,
            None => return (Vec::new(), None),
        };
        let (next, mut said, mut call) = advance(job, reply);
        self.job = next;
        let ghost target = drain(
            self.job,
            self.backlog@,
            self.background_mining,
            said@,
            call,
        );
        while self.job.is_none() && self.backlog.len() > 0
            invariant
                self.background_mining == old(self).background_mining,
                drain(self.job, self.backlog@, self.background_mining, said@, call) == target,
            decreases self.backlog.len(),
        {
            let ghost before = self.backlog@;
            let event = self.backlog.remove(0);
            proof {
                assert(self.backlog@ =~= before.drop_first());
            }
            let (job, mut more, next_call) = start_event(event, self.background_mining);
            said.append(&mut more);
            self.job = job;
            call = next_call;
        }
        proof {
            lemma_drain_settles(self.job, self.backlog@, self.background_mining, said@, call);
        }
        (said, call)
    }
}

/// The report for a malformed command.
fn error_report(e: CommandError) -> (r: Message)
    ensures
        r == error_message(e),
{
    match e {
        CommandError::MissingArgument => Message::MissingArgument,
        CommandError::InvalidAmount => Message::InvalidAmount,
        CommandError::InvalidAddress => Message::InvalidAddress,
        CommandError::InvalidCommand => Message::InvalidCommand,
    }
}

/// Starts `event` on an idle console.
fn start_event(event: Event, background_mining: bool) -> (r: (
    Option<Job>,
    Vec<Message>,
    Option<RemoteCall>,
))
    ensures
        (r.0, r.1@, r.2) == begin(event, background_mining),
{
    match event {
        Event::Tick => {
            if background_mining {
                let (stage, said, call) = start_mining(false);
                (Some(Job::Mining { verbose: false, stage }), said, Some(call))
            } else {
                (None, Vec::new(), None)
            }
        },
        Event::Input { command } => match command {
            Err(e) => (None, vec![error_report(e)], None),
            Ok(Command::Mine) => {
                let (stage, said, call) = start_mining(true);
                (Some(Job::Mining { verbose: true, stage }), said, Some(call))
            },
            Ok(Command::Balance) => (Some(Job::Balance), Vec::new(), Some(RemoteCall::GetBalance)),
            Ok(Command::BlockCount) => (
                Some(Job::BlockCount),
                Vec::new(),
                Some(RemoteCall::GetBlockCount),
            ),
            Ok(Command::SendToAddress { address, amount_sat }) => {
                let recipient = address.clone();
                (
                    Some(Job::Send { address: recipient }),
                    Vec::new(),
                    Some(RemoteCall::SendToAddress { address, amount_sat }),
                )
            },
        },
    }
}

/// Moves `job` on by the node's `reply`.
fn advance(job: Job, reply: Reply) -> (r: (Option<Job>, Vec<Message>, Option<RemoteCall>))
    requires
        job_expects(job, reply),
    ensures
        (r.0, r.1@, r.2) == job_next(job, reply),
{
    match job {
        Job::Startup { stage } => match (stage, reply) {
            (StartupStage::LoadWallet, Reply::WalletLoaded { name }) => (
                Some(Job::Startup { stage: StartupStage::CountBlocks }),
                vec![Message::WalletLoaded { name }],
                Some(RemoteCall::GetBlockCount),
            ),
            (StartupStage::LoadWallet, Reply::Failed { cause }) => (
                Some(Job::Startup { stage: StartupStage::CountBlocks }),
                vec![Message::WalletLoadFailed { cause }],
                Some(RemoteCall::GetBlockCount),
            ),
            (StartupStage::CountBlocks, Reply::BlockCount { count }) => (
                Some(Job::Startup { stage: StartupStage::CheckBalance }),
                vec![Message::BlockCount { count }],
                Some(RemoteCall::GetBalance),
            ),
            (StartupStage::CountBlocks, Reply::Failed { cause }) => (
                Some(Job::Startup { stage: StartupStage::CheckBalance }),
                vec![Message::BlockCountFailed { cause }],
                Some(RemoteCall::GetBalance),
            ),
            (StartupStage::CheckBalance, Reply::Balance { sat }) => (
                None,
                vec![Message::Balance { sat }, Message::Ready],
                None,
            ),
            (StartupStage::CheckBalance, Reply::Failed { cause }) => (
                None,
                vec![Message::BalanceFailed { cause }, Message::Ready],
                None,
            ),
            _ => (None, Vec::new(), None),
        },
        Job::Send { address } => match reply {
            Reply::TxId { txid } => (None, vec![Message::TxId { txid }], None),
            Reply::Failed { cause } => (None, vec![Message::SendFailed { address, cause }], None),
            _ => (None, Vec::new(), None),
        },
        Job::Balance => match reply {
            Reply::Balance { sat } => (None, vec![Message::Balance { sat }], None),
            Reply::Failed { cause } => (None, vec![Message::BalanceFailed { cause }], None),
            _ => (None, Vec::new(), None),
        },
        Job::BlockCount => match reply {
            Reply::BlockCount { count } => (None, vec![Message::BlockCount { count }], None),
            Reply::Failed { cause } => (None, vec![Message::BlockCountFailed { cause }], None),
            _ => (None, Vec::new(), None),
        },
        Job::Mining { verbose, stage } => {
            let (next, said, call) = mining_step(verbose, stage, reply);
            match next {
                Some(s) => (Some(Job::Mining { verbose, stage: s }), said, call),
                None => (None, said, call),
            }
        },
    }
}

} // verus!
