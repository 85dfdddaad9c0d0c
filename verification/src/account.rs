//! Addresses and accounts as the store routine sees them.

use solana_program::pubkey::Pubkey;
use vstd::prelude::*;

verus! {

/// The 32-byte identifier of a program or of an account's owner.
#[derive(Clone, Copy, Debug, PartialEq, Eq)]
pub struct Address {
    pub bytes: [u8; 32],
}

impl View for Address {
    type V = Seq<u8>;

    open spec fn view(&self) -> Seq<u8> {
        self.bytes@
    }
}

impl Address {
    /// The address made of the given bytes.
    pub fn new(bytes: [u8; 32]) -> (address: Address)
        ensures
            address.bytes == bytes,
    {
        Address { bytes }
    }

    /// Whether the two addresses are equal, as `solana_program` compares its
    /// `Pubkey`s. A `Pubkey` wraps a 32-byte array, which
    /// `Pubkey::new_from_array` takes as it is, and its `==` is the derived
    /// one: two of them are equal exactly when their bytes are.
    #[verifier::external_body]
    pub(crate) fn same_pubkey(&self, other: &Address) -> (same: bool)
        ensures
            same == (self@ == other@),
    {
        Pubkey::new_from_array(self.bytes) == Pubkey::new_from_array(other.bytes)
    }
}

impl Default for Address {
    /// The address of 32 zero bytes.
    fn default() -> (address: Address)
        ensures
            address@ == Seq::new(32, |i: int| 0u8),
    {
        let address = Address { bytes: [0u8; 32] };
        assert(address@ =~= Seq::new(32, |i: int| 0u8));
        address
    }
}

/// What the store routine reads and writes of an account.
pub struct AccountView {
    pub owner: Seq<u8>,
    pub data: Seq<u8>,
}

/// An account: the address of the program that owns it, and its data buffer.
#[derive(Debug, PartialEq, Eq)]
pub struct Account {
    pub owner: Address,
    pub data: Vec<u8>,
}

impl View for Account {
    type V = AccountView;

    open spec fn view(&self) -> AccountView {
        AccountView { owner: self.owner@, data: self.data@ }
    }
}

impl Account {
    /// The account with the given owner and data buffer.
    pub fn new(owner: Address, data: Vec<u8>) -> (account: Account)
        ensures
            account.owner == owner,
            account.data == data,
    {
        Account { owner, data }
    }
}

impl Clone for Account {
    /// A second account with the same owner and the same data.
    fn clone(&self) -> (copy: Account)
        ensures
            copy@ == self@,
    {
        Account { owner: self.owner, data: self.data.clone() }
    }
}

/// The views of a list of accounts, in the list's order.
pub open spec fn views(accounts: Seq<Account>) -> Seq<AccountView> {
    accounts.map_values(|a: Account| a@)
}

} // verus!
