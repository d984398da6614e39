//! The instructions the booth accepts.

use crate::amount::Decimal;
use vstd::prelude::*;

verus! {

/// An instruction to the booth. Each takes an ordered list of accounts; the
/// module of each operation says which.
#[derive(Debug, Clone, Copy, PartialEq, Eq, Structural)]
pub enum XBoothIntruction {
    /// Create the booth record and both vaults for the payer and two assets.
    InitializeExhangeBooth {  },
    /// Pay `amount` decimal units from a token account into the vault of
    /// the asset that the token account holds.
    Deposit { amount: Decimal },
    /// Take `amount` decimal units of asset A out of its vault.
    Withdraw { amount: Decimal },
    /// Pay `amount` decimal units of asset A into vault A and receive their
    /// worth in asset B out of vault B.
    Exchange { amount: Decimal },
}

impl XBoothIntruction {
    /// The tag under which the instruction is encoded: its position in the
    /// enumeration.
    pub open spec fn tag_spec(self) -> u8 {
        match self {
            XBoothIntruction::InitializeExhangeBooth {  } => 0,
            XBoothIntruction::Deposit { .. } => 1,
            XBoothIntruction::Withdraw { .. } => 2,
            XBoothIntruction::Exchange { .. } => 3,
        }
    }

    /// The tag of the instruction.
    pub fn tag(&self) -> (tag: u8)
        ensures
            tag == self.tag_spec(),
    {
        match self {
            XBoothIntruction::InitializeExhangeBooth {  } => 0,
            XBoothIntruction::Deposit { .. } => 1,
            XBoothIntruction::Withdraw { .. } => 2,
            XBoothIntruction::Exchange { .. } => 3,
        }
    }
}

} // verus!
