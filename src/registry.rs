use vstd::prelude::*;
use std::collections::BTreeMap;
use crate::types::{Account, ErrorKind, Event, TokenId};

verus! {

broadcast use vstd::laws_cmp::group_laws_cmp;

/// The registry's storage as mathematical maps.
pub struct RegistryView {
    /// Tokens held per account; an absent key counts as zero.
    pub counts: Map<Account, u32>,
    /// The owner of each existing token.
    pub owners: Map<TokenId, Account>,
    /// The one account, if any, approved to move a token.
    pub approvals: Map<TokenId, Account>,
    /// Blanket approvals, keyed by (owner, operator).
    pub operators: Map<(Account, Account), bool>,
    /// Notifications produced and not yet taken by the host.
    pub events: Seq<Event>,
}

/// The tokens that `owners` assigns to `a`.
pub open spec fn tokens_of(owners: Map<TokenId, Account>, a: Account) -> Set<TokenId> {
    owners.dom().filter(|t: TokenId| owners[t] == a)
}

impl RegistryView {
    pub open spec fn balance(self, a: Account) -> nat {
        if self.counts.contains_key(a) {
            self.counts[a] as nat
        } else {
            0
        }
    }

    pub open spec fn owner_of(self, t: TokenId) -> Option<Account> {
        if self.owners.contains_key(t) {
            Some(self.owners[t])
        } else {
            None
        }
    }

    pub open spec fn has_token(self, t: TokenId) -> bool {
        self.owners.contains_key(t)
    }

    pub open spec fn approved(self, t: TokenId) -> Option<Account> {
        if self.approvals.contains_key(t) {
            Some(self.approvals[t])
        } else {
            None
        }
    }

    pub open spec fn is_operator(self, owner: Account, operator: Account) -> bool {
        self.operators.contains_key((owner, operator)) && self.operators[(owner, operator)]
    }

    /// Every account's counter equals the number of tokens it owns.
    pub open spec fn counts_match_owners(self) -> bool {
        forall|a: Account| #[trigger] self.balance(a) == tokens_of(self.owners, a).len()
    }

    /// The registry's invariant.
    pub open spec fn wf(self) -> bool {
        &&& self.owners.dom().finite()
        &&& self.counts_match_owners()
        &&& forall|t: TokenId| #[trigger] self.approvals.contains_key(t) ==> self.owners.contains_key(t)
        &&& forall|a: Account| #[trigger] self.operators.contains_key((a, a)) ==> !self.operators[(a, a)]
    }

    /// The same state with the counter of `a` set to `n`.
    pub open spec fn with_balance(self, a: Account, n: int) -> RegistryView {
        RegistryView { counts: self.counts.insert(a, n as u32), ..self }
    }
}

/// The result of an operation whose check gave `c`.
pub open spec fn outcome(c: Option<ErrorKind>) -> Result<(), ErrorKind> {
    match c {
        Some(e) => Err(e),
        None => Ok(()),
    }
}

/// Giving `t` to `b` adds it to what `b` owns and takes it from everyone else.
pub proof fn lemma_tokens_of_insert(owners: Map<TokenId, Account>, t: TokenId, b: Account, a: Account)
    ensures
        tokens_of(owners.insert(t, b), a) == if a == b {
            tokens_of(owners, a).insert(t)
        } else {
            tokens_of(owners, a).remove(t)
        },
{
    if a == b {
        assert(tokens_of(owners.insert(t, b), a) =~= tokens_of(owners, a).insert(t));
    } else {
        assert(tokens_of(owners.insert(t, b), a) =~= tokens_of(owners, a).remove(t));
    }
}

/// Removing `t` takes it from what its owner owns.
pub proof fn lemma_tokens_of_remove(owners: Map<TokenId, Account>, t: TokenId, a: Account)
    ensures
        tokens_of(owners.remove(t), a) == tokens_of(owners, a).remove(t),
{
    assert(tokens_of(owners.remove(t), a) =~= tokens_of(owners, a).remove(t));
}

/// Over a finite map every account owns a finite set of tokens.
pub proof fn lemma_tokens_of_finite(owners: Map<TokenId, Account>, a: Account)
    requires
        owners.dom().finite(),
    ensures
        tokens_of(owners, a).finite(),
        tokens_of(owners, a).subset_of(owners.dom()),
{
    assert(tokens_of(owners, a).subset_of(owners.dom()));
    vstd::set_lib::lemma_set_subset_finite(owners.dom(), tokens_of(owners, a));
}

/// The token registry: four maps and the notifications they produced.
pub struct Registry {
    pub(crate) counts: BTreeMap<Account, u32>,
    pub(crate) owners: BTreeMap<TokenId, Account>,
    pub(crate) approvals: BTreeMap<TokenId, Account>,
    pub(crate) operators: BTreeMap<(Account, Account), bool>,
    pub(crate) events: Vec<Event>,
}

impl View for Registry {
    type V = RegistryView;

    open(crate) spec fn view(&self) -> RegistryView {
        RegistryView {
            counts: self.counts@,
            owners: self.owners@,
            approvals: self.approvals@,
            operators: self.operators@,
            events: self.events@,
        }
    }
}

impl Registry {
    /// An empty registry: no tokens, no approvals, no notifications.
    pub fn new() -> (r: Registry)
        ensures
            r@.wf(),
            r@.counts == Map::<Account, u32>::empty(),
            r@.owners == Map::<TokenId, Account>::empty(),
            r@.approvals == Map::<TokenId, Account>::empty(),
            r@.operators == Map::<(Account, Account), bool>::empty(),
            r@.events == Seq::<Event>::empty(),
    {
        let r = Registry {
            counts: BTreeMap::new(),
            owners: BTreeMap::new(),
            approvals: BTreeMap::new(),
            operators: BTreeMap::new(),
            events: Vec::new(),
        };
        proof {
            assert forall|a: Account| #[trigger] r@.balance(a) == tokens_of(r@.owners, a).len() by {
                assert(tokens_of(r@.owners, a) =~= Set::<TokenId>::empty());
            }
        }
        r
    }

    /// The number of tokens that `account` owns.
    pub fn balance_of(&self, account: Account) -> (r: u32)
        ensures
            r == self@.balance(account),
    {
        match self.counts.get(&account) {
            Some(n) => *n,
            None => 0,
        }
    }

    /// The owner of `token_id`, or `None` where it does not exist.
    pub fn owner_of(&self, token_id: TokenId) -> (r: Option<Account>)
        ensures
            r == self@.owner_of(token_id),
    {
        match self.owners.get(&token_id) {
            Some(a) => Some(*a),
            None => None,
        }
    }

    /// The account approved to move `token_id`, if any.
    pub fn get_approved(&self, token_id: TokenId) -> (r: Option<Account>)
        ensures
            r == self@.approved(token_id),
    {
        match self.approvals.get(&token_id) {
            Some(a) => Some(*a),
            None => None,
        }
    }

    /// Whether `owner` has given `operator` blanket approval.
    pub fn is_approved_for_all(&self, owner: Account, operator: Account) -> (r: bool)
        ensures
            r == self@.is_operator(owner, operator),
    {
        match self.operators.get(&(owner, operator)) {
            Some(b) => *b,
            None => false,
        }
    }

    /// Whether `token_id` exists, that is has an owner.
    pub fn token_exists(&self, token_id: TokenId) -> (r: bool)
        ensures
            r == self@.has_token(token_id),
    {
        self.owners.contains_key(&token_id)
    }

    /// The notifications produced since they were last taken, oldest first.
    pub fn events(&self) -> (r: &[Event])
        ensures
            r@ == self@.events,
    {
        self.events.as_slice()
    }

    /// Hands the pending notifications to the host and forgets them.
    pub fn take_events(&mut self) -> (r: Vec<Event>)
        requires
            old(self)@.wf(),
        ensures
            final(self)@.wf(),
            r@ == old(self)@.events,
            final(self)@ == (RegistryView { events: Seq::<Event>::empty(), ..old(self)@ }),
    {
        let mut taken: Vec<Event> = Vec::new();
        core::mem::swap(&mut taken, &mut self.events);
        proof {
            assert forall|a: Account| #[trigger] self@.balance(a) == tokens_of(self@.owners, a).len() by {
                assert(old(self)@.balance(a) == tokens_of(old(self)@.owners, a).len());
            }
        }
        taken
    }
}

} // verus!
