//! The booth record as it is persisted.

use crate::pubkey::{lemma_pubkey_of, pubkey_of, Pubkey};
use vstd::prelude::*;

verus! {

/// The length in bytes of a stored booth record: three addresses.
pub const EXCHANGE_BOOTH_ACCOUNT_LEN: usize = 96;

/// The booth record: who administers the booth, and where its two vaults
/// are. Written once, when the booth is initialized.
#[derive(Debug, Clone, Copy, PartialEq, Eq)]
pub struct ExchangeBoothAccount {
    /// The administrator of the booth.
    pub admin: Pubkey,
    /// The address of the vault for asset A.
    pub vault_a: Pubkey,
    /// The address of the vault for asset B.
    pub vault_b: Pubkey,
}

impl ExchangeBoothAccount {
    /// The stored form of the record: the three addresses one after the
    /// other, `admin`, `vault_a`, `vault_b`, with nothing between or around
    /// them.
    pub open spec fn pack_spec(self) -> Seq<u8> {
        self.admin@ + self.vault_a@ + self.vault_b@
    }

    /// The record that `data` stores: one for exactly 96 bytes, none for any
    /// other length.
    pub open spec fn unpack_spec(data: Seq<u8>) -> Option<ExchangeBoothAccount> {
        if data.len() == EXCHANGE_BOOTH_ACCOUNT_LEN {
            Some(
                ExchangeBoothAccount {
                    admin: pubkey_of(data.subrange(0, 32)),
                    vault_a: pubkey_of(data.subrange(32, 64)),
                    vault_b: pubkey_of(data.subrange(64, 96)),
                },
            )
        } else {
            None
        }
    }

    /// Writes the record in its stored form.
    pub fn pack(&self) -> (data: Vec<u8>)
        ensures
            data@ == self.pack_spec(),
            data@.len() == EXCHANGE_BOOTH_ACCOUNT_LEN,
    {
        let mut data: Vec<u8> = Vec::new();
        self.admin.write(&mut data);
        self.vault_a.write(&mut data);
        self.vault_b.write(&mut data);
        proof {
            assert(data@ =~= self.pack_spec());
        }
        data
    }

    /// Reads a record from its stored form. `None` unless `data` is exactly
    /// 96 bytes long.
    pub fn unpack(data: &[u8]) -> (record: Option<ExchangeBoothAccount>)
        ensures
            record == Self::unpack_spec(data@),
    {
        if data.len() != EXCHANGE_BOOTH_ACCOUNT_LEN {
            return None;
        }
        match (Pubkey::read(data, 0), Pubkey::read(data, 32), Pubkey::read(data, 64)) {
            (Some(admin), Some(vault_a), Some(vault_b)) => Some(
                ExchangeBoothAccount { admin, vault_a, vault_b },
            ),
            _ => None,
        }
    }
}

/// Writing a record and reading it back gives the record; reading 96 bytes
/// and writing the record back gives the bytes.
pub proof fn lemma_record_round_trip(record: ExchangeBoothAccount, data: Seq<u8>)
    ensures
        ExchangeBoothAccount::unpack_spec(record.pack_spec()) == Some(record),
        ExchangeBoothAccount::unpack_spec(data) matches Some(read) ==> read.pack_spec() == data,
{
    let packed = record.pack_spec();
    assert(packed.subrange(0, 32) =~= record.admin@);
    assert(packed.subrange(32, 64) =~= record.vault_a@);
    assert(packed.subrange(64, 96) =~= record.vault_b@);
    lemma_pubkey_of(record.admin, data);
    lemma_pubkey_of(record.vault_a, data);
    lemma_pubkey_of(record.vault_b, data);
    if data.len() == EXCHANGE_BOOTH_ACCOUNT_LEN {
        let read = ExchangeBoothAccount::unpack_spec(data)->0;
        lemma_pubkey_of(read.admin, data.subrange(0, 32));
        lemma_pubkey_of(read.admin, data.subrange(32, 64));
        lemma_pubkey_of(read.admin, data.subrange(64, 96));
        assert(read.pack_spec() =~= data);
    }
}

} // verus!
