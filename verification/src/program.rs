//! The store routine: checks a request and, if it passes every check, writes
//! the requested number at the start of the first account's data.

use crate::account::{views, Account, AccountView, Address};
use crate::error::StoreError;
use crate::le32::{decode, le_value, with_number, write_u32, WIDTH};
use vstd::prelude::*;

verus! {

/// The first check that a request fails, if it fails one. The checks run in a
/// fixed order: there is a first account, the program owns it, its data holds
/// at least four bytes, the payload is exactly four bytes long.
pub open spec fn rejection(
    program_id: Seq<u8>,
    accounts: Seq<AccountView>,
    payload: Seq<u8>,
) -> Option<StoreError> {
    if accounts.len() == 0 {
        Some(StoreError::MissingAccount)
    } else if accounts[0].owner != program_id {
        Some(StoreError::IncorrectOwner)
    } else if accounts[0].data.len() < 4 {
        Some(StoreError::BufferTooSmall)
    } else if payload.len() != 4 {
        Some(StoreError::MalformedPayload)
    } else {
        None
    }
}

/// The accounts as a request leaves them. A rejected request leaves them as
/// they were. An accepted one replaces the first four data bytes of the first
/// account by the payload's number and changes nothing else.
pub open spec fn accounts_after(
    program_id: Seq<u8>,
    accounts: Seq<AccountView>,
    payload: Seq<u8>,
) -> Seq<AccountView> {
    if rejection(program_id, accounts, payload).is_some() {
        accounts
    } else {
        accounts.update(
            0,
            AccountView {
                owner: accounts[0].owner,
                data: with_number(accounts[0].data, le_value(payload) as u32),
            },
        )
    }
}

/// Handles one request of the program `program_id`: stores the number that
/// `instruction_data` encodes at the start of the first account's data.
///
/// The request is rejected, with nothing written, for the first check it
/// fails; otherwise it succeeds.
pub fn process_instruction(
    program_id: &Address,
    accounts: &mut [Account],
    instruction_data: &[u8],
) -> (result: Result<(), StoreError>)
    ensures
        match rejection(program_id@, views(old(accounts)@), instruction_data@) {
            Some(error) => result == Err::<(), StoreError>(error),
            None => result.is_ok(),
        },
        views(final(accounts)@) == accounts_after(
            program_id@,
            views(old(accounts)@),
            instruction_data@,
        ),
{
    let account = match accounts.first_mut() {
        Some(account) => account,
        None => {
            return Err(StoreError::MissingAccount);
        },
    };
    if !account.owner.same_pubkey(program_id) {
        return Err(StoreError::IncorrectOwner);
    }
    if account.data.len() < WIDTH {
        return Err(StoreError::BufferTooSmall);
    }
    let number = match decode(instruction_data) {
        Some(number) => number,
        None => {
            return Err(StoreError::MalformedPayload);
        },
    };
    write_u32(&mut account.data, number);
    Ok(())
}

} // verus!
