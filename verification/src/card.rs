use vstd::prelude::*;

verus! {

/// Mathematical image of a card: the name as a character sequence beside the
/// two combat scores.
#[verifier::ext_equal]
pub ghost struct CardView {
    pub name: Seq<char>,
    pub attack: u32,
    pub defense: u32,
}

impl CardView {
    /// A card's strength in a match: the exact sum of attack and defense.
    /// The sum is taken over unbounded integers, so comparing powers is exact
    /// and no overflow is possible.
    pub open spec fn power(self) -> int {
        self.attack + self.defense
    }
}

/// A collectible card. Cards are immutable once minted: no operation of the
/// registry changes a card's fields.
pub struct Card {
    pub name: String,
    pub attack: u32,
    pub defense: u32,
}

impl View for Card {
    type V = CardView;

    open spec fn view(&self) -> CardView {
        CardView { name: self.name@, attack: self.attack, defense: self.defense }
    }
}

impl Card {
    /// An exact copy of the card, name included.
    pub fn duplicate(&self) -> (r: Card)
        ensures
            r@ == self@,
    {
        Card { name: self.name.clone(), attack: self.attack, defense: self.defense }
    }
}

} // verus!
