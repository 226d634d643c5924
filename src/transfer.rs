use vstd::prelude::*;
use crate::laws::{lemma_burn_keeps_wf, lemma_mint_keeps_wf, lemma_move_keeps_wf};
use crate::registry::{outcome, Registry, RegistryView};
use crate::types::{Account, ErrorKind, Event, TokenId};

verus! {

impl RegistryView {
    /// Why `mint(to, t)` is refused, if it is.
    pub open spec fn mint_check(self, to: Account, t: TokenId) -> Option<ErrorKind> {
        if self.has_token(t) {
            Some(ErrorKind::TokenAlreadyExists)
        } else if self.balance(to) >= u32::MAX {
            Some(ErrorKind::BalanceOverflow)
        } else {
            None
        }
    }

    /// The state after `t` is minted to `to`.
    pub open spec fn minted(self, to: Account, t: TokenId) -> RegistryView {
        RegistryView {
            owners: self.owners.insert(t, to),
            events: self.events.push(Event::Transfer(None, Some(to), t)),
            ..self.with_balance(to, self.balance(to) + 1int)
        }
    }

    /// Why `burn(t)` is refused, if it is.
    pub open spec fn burn_check(self, t: TokenId) -> Option<ErrorKind> {
        if !self.has_token(t) {
            Some(ErrorKind::TokenNotFound)
        } else if self.balance(self.owners[t]) == 0 {
            Some(ErrorKind::BalanceUnderflow)
        } else {
            None
        }
    }

    /// The state after `t` is burned.
    pub open spec fn burned(self, t: TokenId) -> RegistryView {
        let owner = self.owners[t];
        RegistryView {
            owners: self.owners.remove(t),
            approvals: self.approvals.remove(t),
            events: self.events.push(Event::Transfer(Some(owner), None, t)),
            ..self.with_balance(owner, self.balance(owner) - 1)
        }
    }

    /// Why moving `t` from `from` to `to` is refused, if it is, authority aside.
    pub open spec fn move_check(self, from: Account, to: Account, t: TokenId) -> Option<ErrorKind> {
        if !self.has_token(t) {
            Some(ErrorKind::TokenNotFound)
        } else if self.owners[t] != from {
            Some(ErrorKind::OwnerMismatch)
        } else if self.balance(from) == 0 {
            Some(ErrorKind::BalanceUnderflow)
        } else if from != to && self.balance(to) >= u32::MAX {
            Some(ErrorKind::BalanceOverflow)
        } else {
            None
        }
    }

    /// The state after `t` moves from `from` to `to`: the approval is
    /// cleared, `from`'s counter goes down, then `to`'s goes up.
    pub open spec fn moved(self, from: Account, to: Account, t: TokenId) -> RegistryView {
        let dec = self.with_balance(from, self.balance(from) - 1);
        let inc = dec.with_balance(to, dec.balance(to) + 1int);
        RegistryView {
            owners: self.owners.insert(t, to),
            approvals: self.approvals.remove(t),
            events: self.events.push(Event::Transfer(Some(from), Some(to), t)),
            ..inc
        }
    }

    /// Why `caller`'s `transfer_from(from, to, t)` is refused, if it is.
    pub open spec fn transfer_check(self, caller: Account, from: Account, to: Account, t: TokenId) -> Option<ErrorKind> {
        if !self.approved_or_owner(caller, t) {
            Some(ErrorKind::Unauthorized)
        } else {
            self.move_check(from, to, t)
        }
    }
}

impl Registry {
    /// Creates `token_id` and gives it to `to`.
    pub fn mint(&mut self, to: Account, token_id: TokenId) -> (r: Result<(), ErrorKind>)
        requires
            old(self)@.wf(),
        ensures
            final(self)@.wf(),
            r == outcome(old(self)@.mint_check(to, token_id)),
            r is Ok ==> final(self)@ == old(self)@.minted(to, token_id),
            r is Err ==> final(self)@ == old(self)@,
            old(self)@.has_token(token_id) ==> r == Err::<(), ErrorKind>(ErrorKind::TokenAlreadyExists),
    {
        if self.owners.contains_key(&token_id) {
            return Err(ErrorKind::TokenAlreadyExists);
        }
        let balance = self.balance_of(to);
        let new_balance = match balance.checked_add(1) {
            Some(n) => n,
            None => return Err(ErrorKind::BalanceOverflow),
        };
        proof {
            lemma_mint_keeps_wf(self@, to, token_id);
        }
        self.owners.insert(token_id, to);
        self.counts.insert(to, new_balance);
        self.events.push(Event::Transfer(None, Some(to), token_id));
        Ok(())
    }

    /// Destroys `token_id`, with its approval.
    pub fn burn(&mut self, token_id: TokenId) -> (r: Result<(), ErrorKind>)
        requires
            old(self)@.wf(),
        ensures
            final(self)@.wf(),
            r == outcome(old(self)@.burn_check(token_id)),
            r is Ok ==> final(self)@ == old(self)@.burned(token_id),
            r is Ok ==> final(self)@.approved(token_id) is None,
            r is Err ==> final(self)@ == old(self)@,
    {
        let owner = match self.owners.get(&token_id) {
            Some(o) => *o,
            None => return Err(ErrorKind::TokenNotFound),
        };
        let balance = self.balance_of(owner);
        let new_balance = match balance.checked_sub(1) {
            Some(n) => n,
            None => return Err(ErrorKind::BalanceUnderflow),
        };
        proof {
            lemma_burn_keeps_wf(self@, token_id);
        }
        self.clear_approval(token_id);
        self.counts.insert(owner, new_balance);
        self.owners.remove(&token_id);
        self.events.push(Event::Transfer(Some(owner), None, token_id));
        Ok(())
    }

    /// Moves `token_id` from `from` to `to`, whoever asks.
    fn move_token(&mut self, from: Account, to: Account, token_id: TokenId) -> (r: Result<(), ErrorKind>)
        requires
            old(self)@.wf(),
        ensures
            final(self)@.wf(),
            r == outcome(old(self)@.move_check(from, to, token_id)),
            r is Ok ==> final(self)@ == old(self)@.moved(from, to, token_id),
            r is Err ==> final(self)@ == old(self)@,
    {
        let owner = match self.owners.get(&token_id) {
            Some(o) => *o,
            None => return Err(ErrorKind::TokenNotFound),
        };
        if owner != from {
            return Err(ErrorKind::OwnerMismatch);
        }
        let balance_from = self.balance_of(from);
        let new_balance_from = match balance_from.checked_sub(1) {
            Some(n) => n,
            None => return Err(ErrorKind::BalanceUnderflow),
        };
        let balance_to = if to == from {
            new_balance_from
        } else {
            self.balance_of(to)
        };
        let new_balance_to = match balance_to.checked_add(1) {
            Some(n) => n,
            None => return Err(ErrorKind::BalanceOverflow),
        };
        proof {
            lemma_move_keeps_wf(self@, from, to, token_id);
        }
        self.clear_approval(token_id);
        self.counts.insert(from, new_balance_from);
        self.counts.insert(to, new_balance_to);
        self.owners.insert(token_id, to);
        self.events.push(Event::Transfer(Some(from), Some(to), token_id));
        Ok(())
    }

    /// Drops any single-token approval of `token_id`.
    fn clear_approval(&mut self, token_id: TokenId)
        ensures
            final(self)@ == (RegistryView { approvals: old(self)@.approvals.remove(token_id), ..old(self)@ }),
    {
        self.approvals.remove(&token_id);
    }

    /// `caller` moves `token_id` from `from` to `to`. The caller must be the
    /// owner, the approved account or an operator of the owner.
    pub fn transfer_from(&mut self, caller: Account, from: Account, to: Account, token_id: TokenId) -> (r: Result<(), ErrorKind>)
        requires
            old(self)@.wf(),
        ensures
            final(self)@.wf(),
            r == outcome(old(self)@.transfer_check(caller, from, to, token_id)),
            r is Ok ==> final(self)@ == old(self)@.moved(from, to, token_id),
            r is Ok ==> final(self)@.approved(token_id) is None,
            r is Err ==> final(self)@ == old(self)@,
            !old(self)@.approved_or_owner(caller, token_id) ==> r == Err::<(), ErrorKind>(ErrorKind::Unauthorized)
                && final(self)@ == old(self)@,
    {
        if !self.is_approved_or_owner(caller, token_id) {
            return Err(ErrorKind::Unauthorized);
        }
        self.move_token(from, to, token_id)
    }

    /// As `transfer_from`, where the host has first judged whether `to` may
    /// receive tokens; a recipient it rejected gets nothing and nothing changes.
    pub fn safe_transfer_from(
        &mut self,
        caller: Account,
        from: Account,
        to: Account,
        token_id: TokenId,
        recipient_eligible: bool,
    ) -> (r: Result<(), ErrorKind>)
        requires
            old(self)@.wf(),
        ensures
            final(self)@.wf(),
            !recipient_eligible ==> r == Err::<(), ErrorKind>(ErrorKind::RecipientIneligible),
            recipient_eligible ==> r == outcome(old(self)@.transfer_check(caller, from, to, token_id)),
            r is Ok ==> final(self)@ == old(self)@.moved(from, to, token_id),
            r is Ok ==> final(self)@.approved(token_id) is None,
            r is Err ==> final(self)@ == old(self)@,
    {
        if !recipient_eligible {
            return Err(ErrorKind::RecipientIneligible);
        }
        self.transfer_from(caller, from, to, token_id)
    }
}

} // verus!
