//! Amount and address formats of the bitcoin network, as the `bitcoin` crate reads them.
use vstd::prelude::*;

verus! {

/// The amount in satoshis that a decimal string of bitcoins denotes, if it is one.
pub uninterp spec fn btc_amount(s: Seq<char>) -> Option<u64>;

/// Whether a string is a well-formed address of some bitcoin network.
pub uninterp spec fn address_parses(s: Seq<char>) -> bool;

/// Characters that may occur in a non-negative decimal amount.
pub open spec fn is_amount_char(c: char) -> bool {
    ('0' <= c && c <= '9') || c == '.'
}

/// Relies on `bitcoin::Amount::from_str_in` with `Denomination::Bitcoin`: the
/// amount in satoshis of a decimal number of bitcoins. It refuses the empty
/// string, a leading minus sign and every character other than a digit or `.`.
#[verifier::external_body]
pub(crate) fn parse_btc_amount(s: &str) -> (r: Option<u64>)
    ensures
        r == btc_amount(s@),
        s@.len() == 0 ==> r is None,
        (exists|i: int| 0 <= i < s@.len() && !is_amount_char(#[trigger] s@[i])) ==> r is None,
{
    match bitcoin::Amount::from_str_in(s, bitcoin::Denomination::Bitcoin) {
        Ok(amount) => Some(amount.to_sat()),
        Err(_) => None,
    }
}

/// Relies on `FromStr` for `bitcoin::Address<NetworkUnchecked>`: whether `s`
/// decodes as an address (bech32 or base58check) of any network.
#[verifier::external_body]
pub(crate) fn is_valid_address(s: &str) -> (r: bool)
    ensures
        r == address_parses(s@),
{
    <bitcoin::Address<bitcoin::address::NetworkUnchecked> as std::str::FromStr>::from_str(
        s,
    ).is_ok()
}

} // verus!
