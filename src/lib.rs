//! A registry of non-fungible tokens: who owns each token, how many tokens
//! each account holds, single-token approvals and blanket operator
//! approvals, with the transitions that keep them consistent.
pub mod types;
pub mod registry;
pub mod approval;
pub mod transfer;
pub mod laws;
