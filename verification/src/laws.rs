//! What holds of every request, stated over the routine's own description of
//! its result.

use crate::account::AccountView;
use crate::error::StoreError;
use crate::le32::{le_bytes, le_value, lemma_bytes_of_value, stored_number};
use crate::program::{accounts_after, rejection};
use vstd::prelude::*;

verus! {

/// A request passes every check: there is a first account, the program owns
/// it, it holds at least four bytes, and the payload is four bytes long.
pub open spec fn well_formed(
    program_id: Seq<u8>,
    accounts: Seq<AccountView>,
    payload: Seq<u8>,
) -> bool {
    &&& accounts.len() > 0
    &&& accounts[0].owner == program_id
    &&& accounts[0].data.len() >= 4
    &&& payload.len() == 4
}

/// A request that passes every check is accepted, and afterwards the first
/// four bytes of the first account's data are the payload's bytes: they decode
/// to the number that the payload encodes. The buffer keeps its length, its
/// bytes from the fifth on and its owner, and no other account changes.
pub proof fn lemma_accepted_request_stores_number(
    program_id: Seq<u8>,
    accounts: Seq<AccountView>,
    payload: Seq<u8>,
)
    requires
        well_formed(program_id, accounts, payload),
    ensures
        rejection(program_id, accounts, payload).is_none(),
        ({
            let after = accounts_after(program_id, accounts, payload);
            &&& after.len() == accounts.len()
            &&& after[0].owner == accounts[0].owner
            &&& after[0].data.len() == accounts[0].data.len()
            &&& after[0].data.take(4) == payload
            &&& stored_number(after[0].data) == le_value(payload)
            &&& after[0].data.skip(4) == accounts[0].data.skip(4)
            &&& forall|i: int| 1 <= i < accounts.len() ==> after[i] == accounts[i]
        }),
{
    lemma_bytes_of_value(payload);
    let after = accounts_after(program_id, accounts, payload);
    assert(after[0].data.take(4) =~= le_bytes(le_value(payload) as u32));
    assert(after[0].data.skip(4) =~= accounts[0].data.skip(4));
}

/// A request is accepted exactly when it passes every check.
pub proof fn lemma_accepted_iff_well_formed(
    program_id: Seq<u8>,
    accounts: Seq<AccountView>,
    payload: Seq<u8>,
)
    ensures
        rejection(program_id, accounts, payload).is_none() <==> well_formed(
            program_id,
            accounts,
            payload,
        ),
{
}

/// Sending the same request a second time changes nothing more: it is
/// accepted or rejected as the first one was, and leaves the accounts as the
/// first one left them.
pub proof fn lemma_repeated_request_is_idempotent(
    program_id: Seq<u8>,
    accounts: Seq<AccountView>,
    payload: Seq<u8>,
)
    ensures
        ({
            let once = accounts_after(program_id, accounts, payload);
            &&& rejection(program_id, once, payload) == rejection(program_id, accounts, payload)
            &&& accounts_after(program_id, once, payload) == once
        }),
{
    let once = accounts_after(program_id, accounts, payload);
    if rejection(program_id, accounts, payload).is_none() {
        lemma_accepted_request_stores_number(program_id, accounts, payload);
        let twice = accounts_after(program_id, once, payload);
        assert(twice[0].data =~= once[0].data);
        assert(twice =~= once);
    }
}

/// Of two accepted requests in a row the later one wins: the accounts end as
/// if only the second had been sent, and the bytes from the fifth on are
/// still those from before the first.
pub proof fn lemma_last_write_wins(
    program_id: Seq<u8>,
    accounts: Seq<AccountView>,
    first: Seq<u8>,
    second: Seq<u8>,
)
    requires
        well_formed(program_id, accounts, first),
        second.len() == 4,
    ensures
        ({
            let between = accounts_after(program_id, accounts, first);
            let end = accounts_after(program_id, between, second);
            &&& rejection(program_id, between, second).is_none()
            &&& end == accounts_after(program_id, accounts, second)
            &&& stored_number(end[0].data) == le_value(second)
            &&& between[0].data.skip(4) == accounts[0].data.skip(4)
            &&& end[0].data.skip(4) == accounts[0].data.skip(4)
        }),
{
    lemma_accepted_request_stores_number(program_id, accounts, first);
    lemma_accepted_request_stores_number(program_id, accounts, second);
    let between = accounts_after(program_id, accounts, first);
    lemma_accepted_request_stores_number(program_id, between, second);
    let end = accounts_after(program_id, between, second);
    let direct = accounts_after(program_id, accounts, second);
    assert(end[0].data =~= direct[0].data);
    assert(end =~= direct);
}

/// A first account that another program owns is never written: the request
/// fails with `IncorrectOwner` and the accounts stay as they were, whatever
/// the payload is.
pub proof fn lemma_foreign_account_is_rejected(
    program_id: Seq<u8>,
    accounts: Seq<AccountView>,
    payload: Seq<u8>,
)
    requires
        accounts.len() > 0,
        accounts[0].owner != program_id,
    ensures
        rejection(program_id, accounts, payload) == Some(StoreError::IncorrectOwner),
        accounts_after(program_id, accounts, payload) == accounts,
{
}

/// A first account of the program whose data is shorter than four bytes fails
/// the request with `BufferTooSmall`, whatever the payload is, and the
/// accounts stay as they were.
pub proof fn lemma_short_buffer_is_rejected(
    program_id: Seq<u8>,
    accounts: Seq<AccountView>,
    payload: Seq<u8>,
)
    requires
        accounts.len() > 0,
        accounts[0].owner == program_id,
        accounts[0].data.len() < 4,
    ensures
        rejection(program_id, accounts, payload) == Some(StoreError::BufferTooSmall),
        accounts_after(program_id, accounts, payload) == accounts,
{
}

/// A payload that is not exactly four bytes long, sent for an account that
/// passes its own checks, fails the request with `MalformedPayload`, and the
/// accounts stay as they were.
pub proof fn lemma_malformed_payload_is_rejected(
    program_id: Seq<u8>,
    accounts: Seq<AccountView>,
    payload: Seq<u8>,
)
    requires
        accounts.len() > 0,
        accounts[0].owner == program_id,
        accounts[0].data.len() >= 4,
        payload.len() != 4,
    ensures
        rejection(program_id, accounts, payload) == Some(StoreError::MalformedPayload),
        accounts_after(program_id, accounts, payload) == accounts,
{
}

/// A request without accounts fails with `MissingAccount`.
pub proof fn lemma_empty_request_is_rejected(program_id: Seq<u8>, payload: Seq<u8>)
    ensures
        rejection(program_id, Seq::<AccountView>::empty(), payload) == Some(
            StoreError::MissingAccount,
        ),
        accounts_after(program_id, Seq::<AccountView>::empty(), payload) == Seq::<
            AccountView,
        >::empty(),
{
}

/// A rejected request leaves every account as it was.
pub proof fn lemma_rejected_request_changes_nothing(
    program_id: Seq<u8>,
    accounts: Seq<AccountView>,
    payload: Seq<u8>,
)
    requires
        rejection(program_id, accounts, payload).is_some(),
    ensures
        accounts_after(program_id, accounts, payload) == accounts,
{
}

} // verus!
