use vstd::prelude::*;

verus! {

/// The kind of space that a "nearest" card sends the player to.
#[derive(Clone, Copy, Debug, PartialEq, Eq, Structural)]
pub enum SpaceType {
    Railroad,
    Utility,
}

/// What a card does to the player.
#[derive(Clone, Copy, Debug, PartialEq, Eq, Structural)]
pub enum Movement {
    /// Go straight to the given space.
    Absolute(i8),
    /// Move by the given number of spaces.
    Relative(i8),
    /// Go to the nearest following space of the given kind.
    Nearest(SpaceType),
    /// Keep a get-out-of-jail-free card.
    JailFree,
}

/// The slot a drawn card goes back to: one above the bottom while a
/// get-out-of-jail-free card is held, else the bottom.
pub open spec fn insert_index(owned: bool) -> int {
    if owned { 14 } else { 15 }
}

/// The deck after its top card has been drawn and put back.
pub open spec fn after_draw(cards: Seq<Option<Movement>>, owned: bool) -> Seq<Option<Movement>> {
    cards.remove(0).insert(insert_index(owned), cards[0])
}

/// Whether a get-out-of-jail-free card is held after drawing `card`: a
/// blank leaves it as it was, any other card sets it to whether that card
/// is the get-out-of-jail-free one.
pub open spec fn owned_after_draw(card: Option<Movement>, owned: bool) -> bool {
    match card {
        Some(m) => m == Movement::JailFree,
        None => owned,
    }
}

/// The sixteen cards of the chance deck before shuffling.
pub open spec fn chance_recipe() -> Seq<Option<Movement>> {
    seq![
        Some(Movement::Absolute(39)),
        Some(Movement::Absolute(0)),
        Some(Movement::Absolute(24)),
        Some(Movement::Absolute(11)),
        Some(Movement::Nearest(SpaceType::Railroad)),
        Some(Movement::Nearest(SpaceType::Railroad)),
        Some(Movement::Nearest(SpaceType::Utility)),
        None,
        Some(Movement::JailFree),
        Some(Movement::Relative(-3i8)),
        Some(Movement::Absolute(30)),
        None,
        None,
        Some(Movement::Absolute(5)),
        None,
        None,
    ]
}

/// The sixteen cards of the community-chest deck before shuffling.
pub open spec fn community_chest_recipe() -> Seq<Option<Movement>> {
    seq![
        Some(Movement::Absolute(0)),
        None,
        None,
        None,
        Some(Movement::JailFree),
        None,
        None,
        None,
        None,
        None,
        None,
        None,
        None,
        None,
        None,
        None,
    ]
}

/// Drawing keeps a deck's sixteen slots and its cards.
pub proof fn lemma_draw_permutes(cards: Seq<Option<Movement>>, owned: bool)
    requires
        cards.len() == 16,
    ensures
        after_draw(cards, owned).len() == 16,
        after_draw(cards, owned).to_multiset() == cards.to_multiset(),
{
    broadcast use vstd::seq_lib::group_to_multiset_ensures;

    assert(cards.remove(0).to_multiset() =~= cards.to_multiset().remove(cards[0]));
}

/// The deck after `n` draws, with whether a get-out-of-jail-free card is
/// then held.
pub open spec fn after_draws(cards: Seq<Option<Movement>>, owned: bool, n: nat) -> (Seq<
    Option<Movement>,
>, bool)
    decreases n,
{
    if n == 0 {
        (cards, owned)
    } else {
        let (c, o) = after_draws(cards, owned, (n - 1) as nat);
        (after_draw(c, o), owned_after_draw(c[0], o))
    }
}

/// However many cards are drawn, a deck keeps its sixteen slots and the
/// same cards: drawing only reorders it.
pub proof fn lemma_draws_permute(cards: Seq<Option<Movement>>, owned: bool, n: nat)
    requires
        cards.len() == 16,
    ensures
        after_draws(cards, owned, n).0.len() == 16,
        after_draws(cards, owned, n).0.to_multiset() == cards.to_multiset(),
    decreases n,
{
    if n > 0 {
        let (c, o) = after_draws(cards, owned, (n - 1) as nat);
        lemma_draws_permute(cards, owned, (n - 1) as nat);
        lemma_draw_permutes(c, o);
    }
}

/// A drawn card lands in slot 14 while a get-out-of-jail-free card is held
/// and in slot 15 otherwise; the cards above it move up by one.
pub proof fn lemma_draw_lands(cards: Seq<Option<Movement>>, owned: bool)
    requires
        cards.len() == 16,
    ensures
        owned ==> after_draw(cards, owned)[14] == cards[0],
        !owned ==> after_draw(cards, owned)[15] == cards[0],
        forall|i: int| 0 <= i < 14 ==> after_draw(cards, owned)[i] == #[trigger] cards[i + 1],
{
}

/// Drawing the get-out-of-jail-free card marks it held, so the next card
/// drawn goes back to slot 14, one above where it would go were none held.
pub proof fn lemma_jail_free_draw(cards: Seq<Option<Movement>>, owned: bool)
    requires
        cards.len() == 16,
        cards[0] == Some(Movement::JailFree),
    ensures
        owned_after_draw(cards[0], owned),
        after_draw(after_draw(cards, owned), true)[14] == after_draw(cards, owned)[0],
        after_draw(after_draw(cards, owned), false)[15] == after_draw(cards, owned)[0],
{
    lemma_draw_permutes(cards, owned);
    lemma_draw_lands(after_draw(cards, owned), true);
    lemma_draw_lands(after_draw(cards, owned), false);
}

/// Relies on rand's `SliceRandom::shuffle` with the thread-local generator:
/// it permutes the slice in place, so the same cards remain.
#[verifier::external_body]
fn shuffle_cards(cards: &mut Vec<Option<Movement>>)
    ensures
        final(cards)@.len() == old(cards)@.len(),
        final(cards)@.to_multiset() == old(cards)@.to_multiset(),
{
    rand::seq::SliceRandom::shuffle(cards.as_mut_slice(), &mut rand::thread_rng());
}

/// A cyclic deck of sixteen slots, each a card or a blank.
pub struct Deck {
    cards: Vec<Option<Movement>>,
    pub get_out_of_jail_free_owned: bool,
}

impl View for Deck {
    type V = Seq<Option<Movement>>;

    /// The slots from top to bottom.
    closed spec fn view(&self) -> Seq<Option<Movement>> {
        self.cards@
    }
}

impl Deck {
    /// Whether a get-out-of-jail-free card is held.
    pub closed spec fn holds_jail_free(&self) -> bool {
        self.get_out_of_jail_free_owned
    }
}

impl Deck {
    /// The deck has its sixteen slots.
    pub open spec fn wf(&self) -> bool {
        self@.len() == 16
    }

    /// A deck holding `cards` from top to bottom, with no
    /// get-out-of-jail-free card held.
    pub fn from_order(cards: Vec<Option<Movement>>) -> (r: Deck)
        requires
            cards@.len() == 16,
        ensures
            r@ == cards@,
            !r.holds_jail_free(),
            r.wf(),
    {
        Deck { cards, get_out_of_jail_free_owned: false }
    }

    fn new(cards: Vec<Option<Movement>>) -> (r: Deck)
        requires
            cards@.len() == 16,
        ensures
            r@.to_multiset() == cards@.to_multiset(),
            !r.holds_jail_free(),
            r.wf(),
    {
        let mut cards = cards;
        shuffle_cards(&mut cards);
        Deck::from_order(cards)
    }

    /// A shuffled chance deck.
    pub fn new_chance_deck() -> (r: Deck)
        ensures
            r@.to_multiset() == chance_recipe().to_multiset(),
            !r.holds_jail_free(),
            r.wf(),
    {
        let cards = vec![
            Some(Movement::Absolute(39)),
            Some(Movement::Absolute(0)),
            Some(Movement::Absolute(24)),
            Some(Movement::Absolute(11)),
            Some(Movement::Nearest(SpaceType::Railroad)),
            Some(Movement::Nearest(SpaceType::Railroad)),
            Some(Movement::Nearest(SpaceType::Utility)),
            None,
            Some(Movement::JailFree),
            Some(Movement::Relative(-3)),
            Some(Movement::Absolute(30)),
            None,
            None,
            Some(Movement::Absolute(5)),
            None,
            None,
        ];
        assert(cards@ == chance_recipe());
        Deck::new(cards)
    }

    /// A shuffled community-chest deck.
    pub fn new_community_chest_deck() -> (r: Deck)
        ensures
            r@.to_multiset() == community_chest_recipe().to_multiset(),
            !r.holds_jail_free(),
            r.wf(),
    {
        let cards = vec![
            Some(Movement::Absolute(0)),
            None,
            None,
            None,
            Some(Movement::JailFree),
            None,
            None,
            None,
            None,
            None,
            None,
            None,
            None,
            None,
            None,
            None,
        ];
        assert(cards@ == community_chest_recipe());
        Deck::new(cards)
    }

    /// Takes the top card and puts it back near the bottom, returning it.
    pub fn draw(&mut self) -> (r: Option<Movement>)
        requires
            old(self).wf(),
        ensures
            r == old(self)@[0],
            final(self)@ == after_draw(old(self)@, old(self).holds_jail_free()),
            final(self).holds_jail_free()
                == owned_after_draw(r, old(self).holds_jail_free()),
            final(self).wf(),
    {
        let card = self.cards.remove(0);
        let index: usize = if self.get_out_of_jail_free_owned { 14 } else { 15 };
        if let Some(movement) = card {
            self.get_out_of_jail_free_owned = matches!(movement, Movement::JailFree);
        }
        self.cards.insert(index, card);
        card
    }

    /// Records that a get-out-of-jail-free card is held; the slots stay as
    /// they are.
    pub fn set_jail_free_owned(&mut self)
        ensures
            final(self)@ == old(self)@,
            final(self).holds_jail_free(),
    {
        self.get_out_of_jail_free_owned = true;
    }

    /// The card in slot `i`, counted from the top.
    pub fn card_at(&self, i: usize) -> (r: Option<Movement>)
        requires
            i < self@.len(),
        ensures
            r == self@[i as int],
    {
        self.cards[i]
    }
}

} // verus!
