//! The accounts an instruction is handed.

use crate::pubkey::Pubkey;
use vstd::prelude::*;

verus! {

/// One account of an instruction's ordered account list: its address, the
/// two permissions the transaction grants on it, and the bytes it holds.
#[derive(Debug, Clone, PartialEq, Eq)]
pub struct AccountInfo {
    /// The address of the account.
    pub key: Pubkey,
    /// Whether the transaction was signed for this account.
    pub is_signer: bool,
    /// Whether the transaction may change this account.
    pub is_writable: bool,
    /// The bytes stored in the account.
    pub data: Vec<u8>,
}

impl AccountInfo {
    /// An account with the given address, permissions and contents.
    pub fn new(key: Pubkey, is_signer: bool, is_writable: bool, data: Vec<u8>) -> (account:
        AccountInfo)
        ensures
            account.key == key,
            account.is_signer == is_signer,
            account.is_writable == is_writable,
            account.data == data,
    {
        AccountInfo { key, is_signer, is_writable, data }
    }
}

} // verus!
