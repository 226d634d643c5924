use vstd::prelude::*;

verus! {

/// An account, as the host's identity system hands it over.
pub type Account = u64;

/// A 256-bit token identifier, as (high half, low half).
pub type TokenId = (u128, u128);

/// Why an operation was refused. A refused operation changes nothing.
#[derive(Clone, Copy, Debug, PartialEq, Eq, Structural)]
pub enum ErrorKind {
    TokenNotFound,
    TokenAlreadyExists,
    OwnerMismatch,
    Unauthorized,
    RedundantApproval,
    SelfApprovalRejected,
    BalanceOverflow,
    BalanceUnderflow,
    RecipientIneligible,
}

/// A notification for the host's event sink.
#[derive(Clone, Copy, Debug, PartialEq, Eq)]
pub enum Event {
    /// A token moved: `None` as source means minted, `None` as target burned.
    Transfer(Option<Account>, Option<Account>, TokenId),
    /// The owner approved an account to transfer one token.
    Approval(Account, Account, TokenId),
    /// The owner set or cleared an operator's blanket approval.
    ApprovalForAll(Account, Account, bool),
}

} // verus!
