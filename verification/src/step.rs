use vstd::prelude::*;
use crate::custody::CustodyAuthority;
use crate::token::Instruction;

verus! {

/// A call to the token service that the host is to make for the program.
#[derive(Clone, Debug, PartialEq, Eq)]
pub struct Invocation {
    /// The call.
    pub instruction: Instruction,
    /// The accounts that the host hands to the call, by their positions in
    /// the request, in the order the host passes them.
    pub accounts: Vec<usize>,
    /// The custody identity in whose name the program signs the call; none
    /// where the signature of the request's signer suffices.
    pub signer: Option<CustodyAuthority>,
}

/// Where an operation stands while the host makes a call for it.
#[derive(Clone, Copy, Debug, PartialEq, Eq)]
pub enum Stage {
    /// Opening: the custody account is being handed to the custody identity.
    AuthorityChange,
    /// Settling: the taker's payment is being made; the release of the
    /// custody balance `balance` and the closing of the custody account are
    /// still to come.
    Payment { balance: u64, authority: CustodyAuthority },
    /// Settling: the deposit is being released to the taker; the closing of
    /// the custody account is still to come.
    Release { authority: CustodyAuthority },
    /// Settling or cancelling: the custody account is being closed; the
    /// record storage at position `record` is still to be reclaimed into the
    /// account at position `main`.
    CustodyClose { main: usize, record: usize },
}

/// What the host is to do next for an operation.
#[derive(Clone, Debug, PartialEq, Eq)]
pub enum Step {
    /// Make the call; if it fails, the operation fails with the call's
    /// failure and the host undoes the operation. If it succeeds, resume
    /// the operation at the stage.
    Invoke { invocation: Invocation, stage: Stage },
    /// Nothing: the operation is complete.
    Done,
}

impl Invocation {
    /// Every account that the call is handed is one of the first `count`
    /// accounts of the request.
    pub open spec fn within(self, count: nat) -> bool {
        forall|i: int| 0 <= i < self.accounts@.len() ==> self.accounts@[i] < count
    }
}

} // verus!
