use btc_miner::command::{parse_command, same_text, Command, CommandError};
use btc_miner::console::{Console, Event};
use btc_miner::miner::{mining_step, start_mining, MiningStage};
use btc_miner::remote::{RemoteCall, Reply};
use btc_miner::report::Message;
use btc_miner::text::{is_space_char, tokenize};
use btc_miner::timer::{Timer, DEFAULT_INTERVAL_MS};

const ADDRESS: &str = "bc1qw508d6qejxtdg4y5r3zarvary0c5xw7kv8f3t4";

fn idle_console(background_mining: bool) -> Console {
    let (mut console, call) = Console::new("miner".to_string(), background_mining);
    assert_eq!(call, RemoteCall::LoadWallet { name: "miner".to_string() });
    console.deliver(Reply::WalletLoaded { name: "miner".to_string() });
    console.deliver(Reply::BlockCount { count: 7 });
    console.deliver(Reply::Balance { sat: 5 });
    assert!(!console.is_busy());
    console
}

fn line(console: &mut Console, text: &str) -> (Vec<Message>, Option<RemoteCall>) {
    console.offer(Event::Input { command: parse_command(text) })
}

#[test]
fn tokenize_splits_on_any_whitespace() {
    let t = tokenize("  sendtoaddress \taddr\r\n0.5  ");
    assert_eq!(t, vec!["sendtoaddress".to_string(), "addr".to_string(), "0.5".to_string()]);
    assert!(tokenize("").is_empty());
    assert!(tokenize(" \t ").is_empty());
    assert_eq!(tokenize("héllo wörld"), vec!["héllo".to_string(), "wörld".to_string()]);
    assert!(is_space_char('\t'));
    assert!(!is_space_char('a'));
}

#[test]
fn same_text_compares_characters() {
    assert!(same_text("mine", "mine"));
    assert!(!same_text("mine", "mint"));
    assert!(!same_text("mine", "mines"));
}

#[test]
fn simple_keywords_parse() {
    assert_eq!(parse_command("mine"), Ok(Command::Mine));
    assert_eq!(parse_command("balance"), Ok(Command::Balance));
    assert_eq!(parse_command("  blockcount extra"), Ok(Command::BlockCount));
}

#[test]
fn unknown_keyword_is_one_error_and_no_call() {
    for text in ["foo", "", "   ", "MINE", "send", "balance2 x"] {
        assert_eq!(parse_command(text), Err(CommandError::InvalidCommand));
        let mut console = idle_console(false);
        let (said, call) = line(&mut console, text);
        assert_eq!(said, vec![Message::InvalidCommand]);
        assert_eq!(call, None);
        assert!(!console.is_busy());
    }
}

#[test]
fn short_payment_is_missing_argument() {
    for text in ["sendtoaddress", "sendtoaddress addr", " sendtoaddress   "] {
        assert_eq!(parse_command(text), Err(CommandError::MissingArgument));
        let mut console = idle_console(false);
        let (said, call) = line(&mut console, text);
        assert_eq!(said, vec![Message::MissingArgument]);
        assert_eq!(call, None);
    }
}

#[test]
fn non_numeric_amount_is_refused() {
    let text = format!("sendtoaddress {} notanumber", ADDRESS);
    assert_eq!(parse_command(&text), Err(CommandError::InvalidAmount));
    let mut console = idle_console(false);
    let (said, call) = line(&mut console, &text);
    assert_eq!(said, vec![Message::InvalidAmount]);
    assert_eq!(call, None);
}

#[test]
fn negative_amount_is_refused() {
    let text = format!("sendtoaddress {} -1", ADDRESS);
    assert_eq!(parse_command(&text), Err(CommandError::InvalidAmount));
    let mut console = idle_console(false);
    let (said, call) = line(&mut console, &text);
    assert_eq!(said, vec![Message::InvalidAmount]);
    assert_eq!(call, None);
}

#[test]
fn overly_precise_amount_is_refused() {
    let text = format!("sendtoaddress {} 0.000000001", ADDRESS);
    assert_eq!(parse_command(&text), Err(CommandError::InvalidAmount));
}

#[test]
fn amount_is_judged_before_address() {
    assert_eq!(parse_command("sendtoaddress nope abc"), Err(CommandError::InvalidAmount));
    assert_eq!(parse_command("sendtoaddress nope 1"), Err(CommandError::InvalidAddress));
    let mut console = idle_console(false);
    let (said, call) = line(&mut console, "sendtoaddress nope 1");
    assert_eq!(said, vec![Message::InvalidAddress]);
    assert_eq!(call, None);
}

#[test]
fn amounts_are_read_in_bitcoins() {
    assert_eq!(
        parse_command(&format!("sendtoaddress {} 1", ADDRESS)),
        Ok(Command::SendToAddress { address: ADDRESS.to_string(), amount_sat: 100_000_000 })
    );
    assert_eq!(
        parse_command(&format!("sendtoaddress {} 0.00000001", ADDRESS)),
        Ok(Command::SendToAddress { address: ADDRESS.to_string(), amount_sat: 1 })
    );
}

#[test]
fn payment_reports_transaction_id() {
    let text = format!("sendtoaddress {} 0.5", ADDRESS);
    let mut console = idle_console(false);
    let (said, call) = line(&mut console, &text);
    assert!(said.is_empty());
    assert_eq!(
        call,
        Some(RemoteCall::SendToAddress { address: ADDRESS.to_string(), amount_sat: 50_000_000 })
    );
    let reply = Reply::TxId { txid: "abc123".to_string() };
    assert!(console.accepts(&reply));
    let (said, call) = console.deliver(reply);
    assert_eq!(said, vec![Message::TxId { txid: "abc123".to_string() }]);
    assert_eq!(call, None);
    assert!(!console.is_busy());
}

#[test]
fn failed_payment_reports_cause() {
    let mut console = idle_console(false);
    line(&mut console, &format!("sendtoaddress {} 2", ADDRESS));
    let (said, call) = console.deliver(Reply::Failed { cause: "Insufficient funds".to_string() });
    assert_eq!(
        said,
        vec![Message::SendFailed {
            address: ADDRESS.to_string(),
            cause: "Insufficient funds".to_string()
        }]
    );
    assert_eq!(call, None);
}

#[test]
fn empty_mempool_mines_nothing() {
    let mut console = idle_console(false);
    let (said, call) = line(&mut console, "mine");
    assert_eq!(said, vec![Message::CheckingMempool]);
    assert_eq!(call, Some(RemoteCall::GetRawMempool));
    let (said, call) = console.deliver(Reply::Mempool { pending: 0 });
    assert_eq!(said, vec![Message::NoNewTransactions]);
    assert_eq!(call, None);
    assert!(!console.is_busy());
}

#[test]
fn pending_transactions_mine_one_block() {
    let mut console = idle_console(false);
    let (_, call) = line(&mut console, "mine");
    assert_eq!(call, Some(RemoteCall::GetRawMempool));
    let (said, call) = console.deliver(Reply::Mempool { pending: 3 });
    assert_eq!(said, vec![Message::FoundTransactions]);
    assert_eq!(call, Some(RemoteCall::GetNewAddress));
    let (said, call) = console.deliver(Reply::NewAddress { address: "bcrt1qxyz".to_string() });
    assert!(said.is_empty());
    assert_eq!(
        call,
        Some(RemoteCall::GenerateToAddress { blocks: 1, address: "bcrt1qxyz".to_string() })
    );
    let (said, call) = console.deliver(Reply::BlocksGenerated);
    assert_eq!(said, vec![Message::BlockGenerated { pending: 3 }]);
    assert_eq!(call, None);
}

#[test]
fn silent_mining_reports_nothing() {
    let (stage, said, call) = start_mining(false);
    assert_eq!(stage, MiningStage::AwaitMempool);
    assert!(said.is_empty());
    assert_eq!(call, RemoteCall::GetRawMempool);
    let (next, said, call) =
        mining_step(false, stage, Reply::Failed { cause: "down".to_string() });
    assert_eq!(next, None);
    assert!(said.is_empty());
    assert_eq!(call, None);
    let (next, said, _) = mining_step(true, stage, Reply::Failed { cause: "down".to_string() });
    assert_eq!(next, None);
    assert_eq!(said, vec![Message::MempoolFailed { cause: "down".to_string() }]);
}

#[test]
fn mining_failures_end_the_check() {
    let stage = MiningStage::AwaitAddress { pending: 2 };
    let (next, said, call) = mining_step(true, stage, Reply::Failed { cause: "x".to_string() });
    assert_eq!((next, call), (None, None));
    assert_eq!(said, vec![Message::NewAddressFailed { cause: "x".to_string() }]);
    let stage = MiningStage::AwaitBlock { pending: 2 };
    let (next, said, call) = mining_step(true, stage, Reply::Failed { cause: "y".to_string() });
    assert_eq!((next, call), (None, None));
    assert_eq!(said, vec![Message::GenerateFailed { cause: "y".to_string() }]);
}

#[test]
fn tick_runs_mining_only_when_enabled() {
    let mut console = idle_console(false);
    let (said, call) = console.offer(Event::Tick);
    assert!(said.is_empty());
    assert_eq!(call, None);
    assert!(!console.is_busy());

    let mut console = idle_console(true);
    let (said, call) = console.offer(Event::Tick);
    assert!(said.is_empty());
    assert_eq!(call, Some(RemoteCall::GetRawMempool));
    let (said, call) = console.deliver(Reply::Mempool { pending: 0 });
    assert!(said.is_empty());
    assert_eq!(call, None);
}

#[test]
fn timer_rearms_from_completion() {
    let mut timer = Timer::new(DEFAULT_INTERVAL_MS, 0);
    assert_eq!(timer.deadline, 15000);
    assert!(!timer.is_due(14999));
    assert!(timer.is_due(15000));
    assert_eq!(timer.remaining(10000), 5000);
    // A slow tick finishes long after its deadline.
    timer.rearm(47000);
    assert_eq!(timer.deadline, 62000);
    assert!(!timer.is_due(47000));
    assert_eq!(timer.remaining(47000), DEFAULT_INTERVAL_MS);
    assert_eq!(timer.remaining(70000), 0);
}

#[test]
fn busy_console_queues_events() {
    let mut console = idle_console(false);
    let (_, call) = line(&mut console, "balance");
    assert_eq!(call, Some(RemoteCall::GetBalance));
    // The node has not answered: a new line must wait.
    let (said, call) = line(&mut console, "blockcount");
    assert!(said.is_empty());
    assert_eq!(call, None);
    let (said, call) = line(&mut console, "bogus");
    assert!(said.is_empty());
    assert_eq!(call, None);
    assert!(!console.accepts(&Reply::BlockCount { count: 1 }));
    let (said, call) = console.deliver(Reply::Balance { sat: 250 });
    assert_eq!(said, vec![Message::Balance { sat: 250 }]);
    assert_eq!(call, Some(RemoteCall::GetBlockCount));
    let (said, call) = console.deliver(Reply::BlockCount { count: 101 });
    assert_eq!(said, vec![Message::BlockCount { count: 101 }, Message::InvalidCommand]);
    assert_eq!(call, None);
    assert!(!console.is_busy());
}

#[test]
fn startup_reports_wallet_height_and_balance() {
    let (mut console, call) = Console::new("w".to_string(), false);
    assert_eq!(call, RemoteCall::LoadWallet { name: "w".to_string() });
    assert!(console.is_busy());
    let (said, call) = console.deliver(Reply::Failed { cause: "no such wallet".to_string() });
    assert_eq!(said, vec![Message::WalletLoadFailed { cause: "no such wallet".to_string() }]);
    assert_eq!(call, Some(RemoteCall::GetBlockCount));
    let (said, call) = console.deliver(Reply::BlockCount { count: 12 });
    assert_eq!(said, vec![Message::BlockCount { count: 12 }]);
    assert_eq!(call, Some(RemoteCall::GetBalance));
    let (said, call) = console.deliver(Reply::Balance { sat: 0 });
    assert_eq!(said, vec![Message::Balance { sat: 0 }, Message::Ready]);
    assert_eq!(call, None);
    assert!(!console.is_busy());
}

#[test]
fn line_during_startup_waits() {
    let (mut console, _) = Console::new("w".to_string(), false);
    let (said, call) = line(&mut console, "mine");
    assert!(said.is_empty());
    assert_eq!(call, None);
    console.deliver(Reply::WalletLoaded { name: "w".to_string() });
    console.deliver(Reply::BlockCount { count: 1 });
    let (said, call) = console.deliver(Reply::Balance { sat: 1 });
    assert_eq!(said, vec![Message::Balance { sat: 1 }, Message::Ready, Message::CheckingMempool]);
    assert_eq!(call, Some(RemoteCall::GetRawMempool));
}

#[test]
fn command_errors_go_to_error_stream() {
    assert!(Message::InvalidCommand.is_error());
    assert!(Message::MissingArgument.is_error());
    assert!(Message::InvalidAmount.is_error());
    assert!(Message::InvalidAddress.is_error());
    assert!(!Message::Ready.is_error());
    assert!(!Message::TxId { txid: "t".to_string() }.is_error());
}
