use vstd::prelude::*;

use crate::card::CardView;
use crate::registry::AccountId;
use crate::registry::RegistryModel;

verus! {

/// After a mint, the id that was handed out names exactly the card supplied,
/// owned initially by the admin; every previously minted token keeps its card
/// and owner; ids other than these stay unminted; and the registry stays
/// well-formed.
pub proof fn lemma_mint_then_get(m: RegistryModel, name: Seq<char>, attack: u32, defense: u32)
    requires
        m.wf(),
    ensures
        m.mint(name, attack, defense).wf(),
        m.mint(name, attack, defense).token_exists(m.next_token_id),
        m.mint(name, attack, defense).card_at(m.next_token_id) == (CardView {
            name,
            attack,
            defense,
        }),
        m.mint(name, attack, defense).owner_at(m.next_token_id) == m.admin,
        forall|id: int|
            m.token_exists(id) ==> m.mint(name, attack, defense).token_exists(id) && m.mint(
                name,
                attack,
                defense,
            ).card_at(id) == m.card_at(id) && m.mint(name, attack, defense).owner_at(id)
                == m.owner_at(id),
        forall|id: int|
            !m.token_exists(id) && id != m.next_token_id ==> !m.mint(
                name,
                attack,
                defense,
            ).token_exists(id),
{
}

/// After a transfer of a minted token to `x`, a further transfer of that
/// token is authorized exactly for `x`; the token's owner is `x`; every other
/// token keeps its owner; all cards and the counter are untouched; and the
/// registry stays well-formed.
pub proof fn lemma_transfer_then_authorize(m: RegistryModel, token_id: int, x: AccountId)
    requires
        m.wf(),
        m.token_exists(token_id),
    ensures
        m.set_owner(token_id, x).wf(),
        m.set_owner(token_id, x).owner_at(token_id) == x,
        forall|caller: AccountId|
            m.set_owner(token_id, x).transfer_allowed(caller, token_id) <==> caller == x,
        forall|id: int|
            m.token_exists(id) && id != token_id ==> m.set_owner(token_id, x).owner_at(id)
                == m.owner_at(id),
        m.set_owner(token_id, x).cards == m.cards,
        m.set_owner(token_id, x).next_token_id == m.next_token_id,
{
}

/// The comparison's outcome does not depend on the order of its arguments:
/// the same winner (or the same absence of one) comes back either way.
pub proof fn lemma_compare_symmetric(m: RegistryModel, a: int, b: int)
    requires
        m.wf(),
    ensures
        m.compare(a, b) == m.compare(b, a),
{
}

/// Two minted cards of equal power have no winner.
pub proof fn lemma_compare_tie(m: RegistryModel, a: int, b: int)
    requires
        m.wf(),
        m.token_exists(a),
        m.token_exists(b),
        m.card_at(a).power() == m.card_at(b).power(),
    ensures
        m.compare(a, b) is None,
{
}

} // verus!
