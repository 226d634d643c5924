use vstd::prelude::*;
use crate::registry::{lemma_tokens_of_finite, lemma_tokens_of_insert, lemma_tokens_of_remove, tokens_of, RegistryView};
use crate::types::{Account, ErrorKind, TokenId};

verus! {

/// Minting keeps the invariant: each counter still equals the number of
/// tokens its account owns.
pub proof fn lemma_mint_keeps_wf(v: RegistryView, to: Account, t: TokenId)
    requires
        v.wf(),
        v.mint_check(to, t) is None,
    ensures
        v.minted(to, t).wf(),
{
    let w = v.minted(to, t);
    assert forall|a: Account| #[trigger] w.balance(a) == tokens_of(w.owners, a).len() by {
        lemma_tokens_of_insert(v.owners, t, to, a);
        lemma_tokens_of_finite(v.owners, a);
        assert(v.balance(a) == tokens_of(v.owners, a).len());
    }
    assert(w.owners.dom() =~= v.owners.dom().insert(t));
}

/// Burning keeps the invariant.
pub proof fn lemma_burn_keeps_wf(v: RegistryView, t: TokenId)
    requires
        v.wf(),
        v.burn_check(t) is None,
    ensures
        v.burned(t).wf(),
{
    let w = v.burned(t);
    assert forall|a: Account| #[trigger] w.balance(a) == tokens_of(w.owners, a).len() by {
        lemma_tokens_of_remove(v.owners, t, a);
        lemma_tokens_of_finite(v.owners, a);
        assert(v.balance(a) == tokens_of(v.owners, a).len());
    }
    assert(w.owners.dom() =~= v.owners.dom().remove(t));
}

/// Moving a token keeps the invariant, also where source and target are
/// the same account.
pub proof fn lemma_move_keeps_wf(v: RegistryView, from: Account, to: Account, t: TokenId)
    requires
        v.wf(),
        v.move_check(from, to, t) is None,
    ensures
        v.moved(from, to, t).wf(),
{
    let w = v.moved(from, to, t);
    assert forall|a: Account| #[trigger] w.balance(a) == tokens_of(w.owners, a).len() by {
        lemma_tokens_of_insert(v.owners, t, to, a);
        lemma_tokens_of_finite(v.owners, a);
        assert(v.balance(a) == tokens_of(v.owners, a).len());
        assert(tokens_of(v.owners, from).contains(t));
    }
    assert(w.owners.dom() =~= v.owners.dom());
}

/// Approving keeps the invariant: an approval names an existing token.
pub proof fn lemma_approve_keeps_wf(v: RegistryView, caller: Account, to: Account, t: TokenId)
    requires
        v.wf(),
        v.approve_check(caller, to, t) is None,
    ensures
        v.approved_for(to, t).wf(),
{
    let w = v.approved_for(to, t);
    assert forall|a: Account| #[trigger] w.balance(a) == tokens_of(w.owners, a).len() by {
        assert(v.balance(a) == tokens_of(v.owners, a).len());
    }
}

/// Setting a blanket approval keeps the invariant: nobody is an operator
/// of itself.
pub proof fn lemma_set_operator_keeps_wf(v: RegistryView, owner: Account, operator: Account, approved: bool)
    requires
        v.wf(),
        owner != operator,
    ensures
        v.operator_set(owner, operator, approved).wf(),
{
    let w = v.operator_set(owner, operator, approved);
    assert forall|a: Account| #[trigger] w.balance(a) == tokens_of(w.owners, a).len() by {
        assert(v.balance(a) == tokens_of(v.owners, a).len());
    }
}

/// Minting a token to `a` and burning it again leaves `a`'s balance, the
/// owner map and the token's existence as they were.
pub proof fn mint_then_burn_restores(v: RegistryView, a: Account, t: TokenId)
    requires
        v.wf(),
        v.mint_check(a, t) is None,
    ensures
        v.minted(a, t).burn_check(t) is None,
        v.minted(a, t).burned(t).balance(a) == v.balance(a),
        v.minted(a, t).burned(t).has_token(t) == v.has_token(t),
        v.minted(a, t).burned(t).owners == v.owners,
{
    let w = v.minted(a, t);
    assert(w.owners.remove(t) =~= v.owners);
}

/// A token can be minted once: after a successful mint, any mint of the
/// same token is refused as already existing.
pub proof fn second_mint_rejected(v: RegistryView, a: Account, b: Account, t: TokenId)
    requires
        v.wf(),
        v.mint_check(a, t) is None,
    ensures
        v.minted(a, t).mint_check(b, t) == Some(ErrorKind::TokenAlreadyExists),
{
}

} // verus!
