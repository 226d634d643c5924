use vstd::prelude::*;
use crate::laws::{lemma_approve_keeps_wf, lemma_set_operator_keeps_wf};
use crate::registry::{outcome, Registry, RegistryView};
use crate::types::{Account, ErrorKind, Event, TokenId};

verus! {

impl RegistryView {
    /// Whether `spender` may move `t`: as its owner, as the account approved
    /// for it, or as an operator of its owner. False for a missing token.
    pub open spec fn approved_or_owner(self, spender: Account, t: TokenId) -> bool {
        self.has_token(t) && {
            let owner = self.owners[t];
            ||| owner == spender
            ||| self.approved(t) == Some(spender)
            ||| self.is_operator(owner, spender)
        }
    }

    /// Why `caller`'s `approve(to, t)` is refused, if it is.
    pub open spec fn approve_check(self, caller: Account, to: Account, t: TokenId) -> Option<ErrorKind> {
        if !self.has_token(t) {
            Some(ErrorKind::TokenNotFound)
        } else if to == self.owners[t] {
            Some(ErrorKind::RedundantApproval)
        } else if caller != self.owners[t] && !self.is_operator(self.owners[t], caller) {
            Some(ErrorKind::Unauthorized)
        } else {
            None
        }
    }

    /// The state after `to` is approved for `t`.
    pub open spec fn approved_for(self, to: Account, t: TokenId) -> RegistryView {
        RegistryView {
            approvals: self.approvals.insert(t, to),
            events: self.events.push(Event::Approval(self.owners[t], to, t)),
            ..self
        }
    }

    /// The state after `owner` sets `operator`'s blanket approval to `approved`.
    pub open spec fn operator_set(self, owner: Account, operator: Account, approved: bool) -> RegistryView {
        RegistryView {
            operators: self.operators.insert((owner, operator), approved),
            events: self.events.push(Event::ApprovalForAll(owner, operator, approved)),
            ..self
        }
    }
}

impl Registry {
    /// Whether `spender` may move `token_id`.
    pub fn is_approved_or_owner(&self, spender: Account, token_id: TokenId) -> (r: bool)
        ensures
            r == self@.approved_or_owner(spender, token_id),
    {
        let owner = match self.owner_of(token_id) {
            Some(o) => o,
            None => return false,
        };
        let approved_as_owner = owner == spender;
        let approved_as_user = match self.get_approved(token_id) {
            Some(u) => u == spender,
            None => false,
        };
        let approved_as_operator = self.is_approved_for_all(owner, spender);
        approved_as_owner || approved_as_user || approved_as_operator
    }

    /// `caller` approves `to` to move `token_id`.
    pub fn approve(&mut self, caller: Account, to: Account, token_id: TokenId) -> (r: Result<(), ErrorKind>)
        requires
            old(self)@.wf(),
        ensures
            final(self)@.wf(),
            r == outcome(old(self)@.approve_check(caller, to, token_id)),
            r is Ok ==> final(self)@ == old(self)@.approved_for(to, token_id),
            r is Err ==> final(self)@ == old(self)@,
    {
        let owner = match self.owner_of(token_id) {
            Some(o) => o,
            None => return Err(ErrorKind::TokenNotFound),
        };
        if to == owner {
            return Err(ErrorKind::RedundantApproval);
        }
        if !(caller == owner || self.is_approved_for_all(owner, caller)) {
            return Err(ErrorKind::Unauthorized);
        }
        proof {
            lemma_approve_keeps_wf(self@, caller, to, token_id);
        }
        self.approvals.insert(token_id, to);
        self.events.push(Event::Approval(owner, to, token_id));
        Ok(())
    }

    /// `caller` gives `operator` blanket approval over all its tokens, or
    /// takes it back.
    pub fn set_approval_for_all(&mut self, caller: Account, operator: Account, approved: bool) -> (r: Result<(), ErrorKind>)
        requires
            old(self)@.wf(),
        ensures
            final(self)@.wf(),
            operator == caller ==> r == Err::<(), ErrorKind>(ErrorKind::SelfApprovalRejected),
            operator != caller ==> r is Ok,
            r is Ok ==> final(self)@ == old(self)@.operator_set(caller, operator, approved),
            r is Err ==> final(self)@ == old(self)@,
    {
        if operator == caller {
            return Err(ErrorKind::SelfApprovalRejected);
        }
        proof {
            lemma_set_operator_keeps_wf(self@, caller, operator, approved);
        }
        self.operators.insert((caller, operator), approved);
        self.events.push(Event::ApprovalForAll(caller, operator, approved));
        Ok(())
    }
}

} // verus!
