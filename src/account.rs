use crate::tx::AccountState;
use cosmos_sdk_proto::cosmos::auth::v1beta1::BaseAccount;
use prost::Message;
use vstd::prelude::*;

verus! {

/// `(account_number, sequence)` of a protobuf `BaseAccount`, when the bytes decode.
pub uninterp spec fn base_account_counters(record: Seq<u8>) -> Option<(u64, u64)>;

/// Relies on prost's `Message::decode` for a `BaseAccount`.
#[verifier::external_body]
fn decode_base_account(record: &[u8]) -> (r: Option<(u64, u64)>)
    ensures
        r == base_account_counters(record@),
{
    BaseAccount::decode(record).ok().map(|a| (a.account_number, a.sequence))
}

/// The counters read from a lookup, or `(0, 0)` when there are none.
pub open spec fn counters_or_zero(counters: Option<(u64, u64)>) -> AccountState {
    match counters {
        Some((n, s)) => AccountState { account_number: n, sequence: s },
        None => AccountState { account_number: 0, sequence: 0 },
    }
}

impl AccountState {
    /// The state of an account from counters read remotely; a failed lookup
    /// or an undecodable record gives `(0, 0)`, as for a new account.
    pub fn from_counters(counters: Option<(u64, u64)>) -> (r: AccountState)
        ensures
            r == counters_or_zero(counters),
    {
        match counters {
            Some((account_number, sequence)) => AccountState { account_number, sequence },
            None => AccountState { account_number: 0, sequence: 0 },
        }
    }

    /// The state of an account from the record that a lookup returned on a
    /// Standard chain (a `BaseAccount`), or `(0, 0)` when the lookup failed or
    /// the record does not decode.
    pub fn from_base_account(record: Option<Vec<u8>>) -> (r: AccountState)
        ensures
            r == counters_or_zero(
                match record {
                    Some(b) => base_account_counters(b@),
                    None => None,
                },
            ),
    {
        match record {
            Some(bytes) => AccountState::from_counters(decode_base_account(bytes.as_slice())),
            None => AccountState::from_counters(None),
        }
    }
}

} // verus!
