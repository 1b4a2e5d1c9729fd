use vstd::prelude::*;

use crate::card::Card;
use crate::card::CardView;

verus! {

/// An account identity. The registry reads nothing of an identity but
/// equality, so a plain integer stands for whatever identity scheme the
/// surrounding platform uses.
#[derive(Clone, Copy, PartialEq, Eq, Structural, Debug, Hash)]
pub struct AccountId(pub u64);

/// The error outcomes of the registry's operations.
///
/// `TokenAlreadyExists` is reserved for future duplicate-mint detection; no
/// current operation returns it.
#[derive(Clone, Copy, PartialEq, Eq, Structural, Debug)]
pub enum Error {
    NotOwner,
    TokenNotFound,
    NotApproved,
    TokenAlreadyExists,
}

/// Mathematical image of the registry: the fixed admin identity, the minted
/// cards and their owners indexed by token id, and the mint counter.
///
/// Token ids are handed out sequentially from 1, so the card minted under id
/// `i` sits at position `i - 1` of `cards`, and its current owner at the same
/// position of `owners`.
#[verifier::ext_equal]
pub ghost struct RegistryModel {
    pub admin: AccountId,
    pub cards: Seq<CardView>,
    pub owners: Seq<AccountId>,
    pub next_token_id: int,
}

impl RegistryModel {
    /// Every minted card has exactly one owner entry, and the counter is one
    /// past the highest minted id.
    pub open spec fn wf(self) -> bool {
        &&& self.owners.len() == self.cards.len()
        &&& self.next_token_id == self.cards.len() + 1
    }

    /// Exactly the ids below the counter (and at least 1) have been minted.
    pub open spec fn token_exists(self, token_id: int) -> bool {
        1 <= token_id < self.next_token_id
    }

    /// The card minted under `token_id`.
    pub open spec fn card_at(self, token_id: int) -> CardView {
        self.cards[token_id - 1]
    }

    /// The current owner of `token_id`.
    pub open spec fn owner_at(self, token_id: int) -> AccountId {
        self.owners[token_id - 1]
    }

    /// Only the admin may mint.
    pub open spec fn mint_allowed(self, caller: AccountId) -> bool {
        caller == self.admin
    }

    /// The state after a successful mint: the new card stored under the next
    /// id, its initial owner the fixed admin identity, the counter one higher.
    pub open spec fn mint(self, name: Seq<char>, attack: u32, defense: u32) -> RegistryModel {
        RegistryModel {
            cards: self.cards.push(CardView { name, attack, defense }),
            owners: self.owners.push(self.admin),
            next_token_id: self.next_token_id + 1,
            ..self
        }
    }

    /// A transfer of `token_id` is authorized exactly for its current owner,
    /// and only if the token has been minted.
    pub open spec fn transfer_allowed(self, caller: AccountId, token_id: int) -> bool {
        self.token_exists(token_id) && self.owner_at(token_id) == caller
    }

    /// The state after a successful transfer: one owner entry replaced,
    /// everything else untouched.
    pub open spec fn set_owner(self, token_id: int, to: AccountId) -> RegistryModel {
        RegistryModel { owners: self.owners.update(token_id - 1, to), ..self }
    }

    /// The outcome of comparing two tokens: the id of the strictly stronger
    /// card, or nothing on a tie or when either token is absent.
    pub open spec fn compare(self, a: int, b: int) -> Option<int> {
        if self.token_exists(a) && self.token_exists(b) {
            if self.card_at(a).power() > self.card_at(b).power() {
                Some(a)
            } else if self.card_at(b).power() > self.card_at(a).power() {
                Some(b)
            } else {
                None
            }
        } else {
            None
        }
    }
}

/// A returned winner as a mathematical id, for relating an executable
/// outcome to the model's.
pub open spec fn winner_id(r: Option<u32>) -> Option<int> {
    match r {
        Some(w) => Some(w as int),
        None => None,
    }
}

/// The registry itself. The two vectors are the token-id-keyed mappings of
/// the model: the entry for token id `i` sits at index `i - 1`.
pub struct NftCardGame {
    pub owner: AccountId,
    pub cards: Vec<Card>,
    pub card_owners: Vec<AccountId>,
    pub next_token_id: u32,
}

impl View for NftCardGame {
    type V = RegistryModel;

    open spec fn view(&self) -> RegistryModel {
        RegistryModel {
            admin: self.owner,
            cards: self.cards@.map_values(|c: Card| c@),
            owners: self.card_owners@,
            next_token_id: self.next_token_id as int,
        }
    }
}

impl NftCardGame {
    /// Well-formed: one owner entry per minted card, and the counter one past
    /// the highest minted id. Every constructor establishes this and every
    /// operation preserves it.
    pub open spec fn wf(self) -> bool {
        self@.wf()
    }

    /// A fresh registry whose admin is the creating caller, with no cards
    /// minted and the counter at 1.
    pub fn new(caller: AccountId) -> (r: NftCardGame)
        ensures
            r.wf(),
            r@.admin == caller,
            r@.next_token_id == 1,
            r@.cards.len() == 0,
            r@.owners.len() == 0,
    {
        NftCardGame {
            owner: caller,
            cards: Vec::new(),
            card_owners: Vec::new(),
            next_token_id: 1,
        }
    }

    /// Mint a new card. Succeeds exactly when `caller` is the admin; then the
    /// returned id is the prior counter value, the card is stored under it
    /// with the admin as initial owner, and the counter rises by one. A
    /// failed call returns `NotOwner` and changes nothing.
    pub fn create_card(
        &mut self,
        name: String,
        attack: u32,
        defense: u32,
        caller: AccountId,
    ) -> (r: Result<u32, Error>)
        requires
            old(self).wf(),
            old(self)@.next_token_id < u32::MAX,
        ensures
            final(self).wf(),
            r is Ok <==> old(self)@.mint_allowed(caller),
            r is Err ==> r->Err_0 == Error::NotOwner && *final(self) == *old(self),
            r is Ok ==> r->Ok_0 as int == old(self)@.next_token_id
                && final(self)@ == old(self)@.mint(name@, attack, defense),
    {
        if caller != self.owner {
            return Err(Error::NotOwner);
        }
        let token_id = self.next_token_id;
        self.next_token_id = self.next_token_id + 1;
        self.cards.push(Card { name, attack, defense });
        self.card_owners.push(self.owner);
        proof {
            assert(self.cards@.map_values(|c: Card| c@) =~= old(self).cards@.map_values(
                |c: Card| c@,
            ).push(CardView { name: name@, attack, defense }));
            assert(self@ =~= old(self)@.mint(name@, attack, defense));
        }
        Ok(token_id)
    }

    /// Look a card up by token id. Returns a copy of the exact card minted
    /// under that id, or nothing if the id was never minted. Never an error,
    /// and no side effect.
    pub fn get_card(&self, token_id: u32) -> (r: Option<Card>)
        requires
            self.wf(),
        ensures
            match r {
                Some(c) => self@.token_exists(token_id as int) && c@ == self@.card_at(
                    token_id as int,
                ),
                None => !self@.token_exists(token_id as int),
            },
    {
        if 1 <= token_id && token_id < self.next_token_id {
            let idx: usize = (token_id - 1) as usize;
            Some(self.cards[idx].duplicate())
        } else {
            None
        }
    }

    /// Transfer a token to `to`. Succeeds exactly when the token exists and
    /// `caller` is its current owner; then only that token's owner entry is
    /// replaced by `to` (a transfer to oneself is permitted and changes the
    /// entry to its old value). An unminted token gives `TokenNotFound`, a
    /// caller other than the owner `NotApproved`, and a failed call changes
    /// nothing.
    pub fn transfer(&mut self, to: AccountId, token_id: u32, caller: AccountId) -> (r: Result<
        (),
        Error,
    >)
        requires
            old(self).wf(),
        ensures
            final(self).wf(),
            r is Ok <==> old(self)@.transfer_allowed(caller, token_id as int),
            !old(self)@.token_exists(token_id as int) ==> r == Err::<(), Error>(
                Error::TokenNotFound,
            ) && *final(self) == *old(self),
            old(self)@.token_exists(token_id as int) && caller != old(self)@.owner_at(
                token_id as int,
            ) ==> r == Err::<(), Error>(Error::NotApproved) && *final(self) == *old(self),
            r is Ok ==> final(self)@ == old(self)@.set_owner(token_id as int, to),
    {
        if !(1 <= token_id && token_id < self.next_token_id) {
            return Err(Error::TokenNotFound);
        }
        let idx: usize = (token_id - 1) as usize;
        let owner = self.card_owners[idx];
        if owner != caller {
            return Err(Error::NotApproved);
        }
        let slot = &mut self.card_owners[idx];
        *slot = to;
        proof {
            assert(self@ =~= old(self)@.set_owner(token_id as int, to));
        }
        Ok(())
    }

    /// Compare the cards under the two token ids by power. Returns the id of
    /// the strictly stronger card, or nothing on a tie or when either token
    /// is absent; the two no-result outcomes are indistinguishable, and no
    /// ownership check is made. Powers are added in 64-bit arithmetic, so the
    /// sum of two 32-bit scores is exact and cannot overflow.
    pub fn play_game(&self, player1_card: u32, player2_card: u32) -> (r: Option<u32>)
        requires
            self.wf(),
        ensures
            winner_id(r) == self@.compare(player1_card as int, player2_card as int),
    {
        let card1 = match self.get_card(player1_card) {
            Some(c) => c,
            None => {
                return None;
            },
        };
        let card2 = match self.get_card(player2_card) {
            Some(c) => c,
            None => {
                return None;
            },
        };
        let player1_power: u64 = card1.attack as u64 + card1.defense as u64;
        let player2_power: u64 = card2.attack as u64 + card2.defense as u64;
        if player1_power > player2_power {
            Some(player1_card)
        } else if player2_power > player1_power {
            Some(player2_card)
        } else {
            None
        }
    }
}

} // verus!
