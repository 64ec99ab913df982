//! Reading one console line as a command.
use vstd::prelude::*;
use vstd::string::StrSliceExecFns;
use crate::node_format::{
    address_parses, btc_amount, is_amount_char, is_valid_address, parse_btc_amount,
};
use crate::text::{tokenize, tokens};

verus! {

/// A well-formed console command.
#[derive(Debug, PartialEq, Eq)]
pub enum Command {
    /// Pay `amount_sat` satoshis to `address`.
    SendToAddress { address: String, amount_sat: u64 },
    /// Check the mempool and generate a block if it holds transactions.
    Mine,
    /// Report the wallet balance.
    Balance,
    /// Report the height of the chain.
    BlockCount,
}

/// Why a console line is not a command.
#[derive(Debug, Clone, Copy, PartialEq, Eq, Structural)]
pub enum CommandError {
    /// `sendtoaddress` without both an address and an amount.
    MissingArgument,
    /// The amount is not a non-negative decimal number of bitcoins.
    InvalidAmount,
    /// The recipient is not a bitcoin address.
    InvalidAddress,
    /// The first token is not a known keyword, or the line is blank.
    InvalidCommand,
}

/// Whether `t` is one of the four command keywords.
pub open spec fn is_keyword(t: Seq<char>) -> bool {
    t == "sendtoaddress"@ || t == "mine"@ || t == "balance"@ || t == "blockcount"@
}

/// The outcome owed for a payment request, given what the amount and the
/// address read as.
pub open spec fn send_outcome(
    address: Seq<char>,
    amount: Option<u64>,
    address_valid: bool,
    r: Result<Command, CommandError>,
) -> bool {
    match amount {
        None => r == Err::<Command, CommandError>(CommandError::InvalidAmount),
        Some(sat) => if address_valid {
            &&& r is Ok
            &&& r->Ok_0 is SendToAddress
            &&& r->Ok_0->SendToAddress_address@ == address
            &&& r->Ok_0->SendToAddress_amount_sat == sat
        } else {
            r == Err::<Command, CommandError>(CommandError::InvalidAddress)
        },
    }
}

/// What the token sequence `t` of a line reads as.
pub open spec fn parses_as(t: Seq<Seq<char>>, r: Result<Command, CommandError>) -> bool {
    if t.len() == 0 || !is_keyword(t[0]) {
        r == Err::<Command, CommandError>(CommandError::InvalidCommand)
    } else if t[0] == "mine"@ {
        r == Ok::<Command, CommandError>(Command::Mine)
    } else if t[0] == "balance"@ {
        r == Ok::<Command, CommandError>(Command::Balance)
    } else if t[0] == "blockcount"@ {
        r == Ok::<Command, CommandError>(Command::BlockCount)
    } else if t.len() < 3 {
        r == Err::<Command, CommandError>(CommandError::MissingArgument)
    } else {
        send_outcome(t[1], btc_amount(t[2]), address_parses(t[1]), r)
    }
}

/// Whether two strings hold the same characters.
pub fn same_text(a: &str, b: &str) -> (r: bool)
    ensures
        r == (a@ == b@),
{
    let n = a.unicode_len();
    if n != b.unicode_len() {
        return false;
    }
    let mut i: usize = 0;
    while i < n
        invariant
            n == a@.len() == b@.len(),
            i <= n,
            forall|k: int| 0 <= k < i ==> a@[k] == b@[k],
        decreases n - i,
    {
        if a.get_char(i) != b.get_char(i) {
            return false;
        }
        i = i + 1;
    }
    proof {
        assert(a@ =~= b@);
    }
    true
}

/// Builds a payment command from its recipient and from what its amount and
/// its recipient read as; the amount is judged before the address.
pub fn send_command(address: String, amount: Option<u64>, address_valid: bool) -> (r: Result<
    Command,
    CommandError,
>)
    ensures
        send_outcome(address@, amount, address_valid, r),
        r is Ok ==> r == Ok::<Command, CommandError>(
            Command::SendToAddress { address, amount_sat: amount.unwrap() },
        ),
{
    match amount {
        None => Err(CommandError::InvalidAmount),
        Some(amount_sat) => {
            if address_valid {
                Ok(Command::SendToAddress { address, amount_sat })
            } else {
                Err(CommandError::InvalidAddress)
            }
        },
    }
}

/// Reads a console line: the first whitespace-separated token names the
/// command, the ones after it are its arguments. Arguments past those a
/// command takes are ignored.
pub fn parse_command(line: &str) -> (r: Result<Command, CommandError>)
    ensures
        parses_as(tokens(line@), r),
        ({
            let t = tokens(line@);
            t.len() >= 3 && t[0] == "sendtoaddress"@ && (exists|i: int|
                0 <= i < t[2].len() && !is_amount_char(#[trigger] t[2][i]))
                ==> r == Err::<Command, CommandError>(CommandError::InvalidAmount)
        }),
{
    let words = tokenize(line);
    if words.len() == 0 {
        return Err(CommandError::InvalidCommand);
    }
    let head = words[0].as_str();
    proof {
        reveal_strlit("sendtoaddress");
        reveal_strlit("mine");
        reveal_strlit("balance");
        reveal_strlit("blockcount");
        assert("sendtoaddress"@.len() != "mine"@.len());
        assert("sendtoaddress"@.len() != "balance"@.len());
        assert("sendtoaddress"@.len() != "blockcount"@.len());
    }
    if same_text(head, "mine") {
        Ok(Command::Mine)
    } else if same_text(head, "balance") {
        Ok(Command::Balance)
    } else if same_text(head, "blockcount") {
        Ok(Command::BlockCount)
    } else if same_text(head, "sendtoaddress") {
        if words.len() < 3 {
            Err(CommandError::MissingArgument)
        } else {
            let address = words[1].clone();
            let amount = parse_btc_amount(words[2].as_str());
            let valid = is_valid_address(address.as_str());
            send_command(address, amount, valid)
        }
    } else {
        Err(CommandError::InvalidCommand)
    }
}

} // verus!
