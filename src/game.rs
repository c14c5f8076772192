use vstd::prelude::*;
use crate::deck::{
    after_draw, chance_recipe, community_chest_recipe, lemma_draw_permutes, owned_after_draw,
    Deck, Movement, SpaceType,
};
use crate::dice::Dice;
use crate::space::{wrapped, Space};

verus! {

/// The jail space.
pub const JAIL: i8 = 30;

/// Where a player leaving jail stands.
pub const JUST_VISITING: i8 = 10;

/// Community-chest spaces draw from the community-chest deck.
pub open spec fn is_chest_space(p: int) -> bool {
    p == 2 || p == 17 || p == 33
}

/// Chance spaces draw from the chance deck.
pub open spec fn is_chance_space(p: int) -> bool {
    p == 7 || p == 22 || p == 36
}

/// The nearest following space of kind `t` from chance space `p`.
pub open spec fn nearest(p: int, t: SpaceType) -> int {
    match t {
        SpaceType::Railroad => if p == 7 { 15 } else if p == 22 { 25 } else { 5 },
        SpaceType::Utility => if p == 7 { 12 } else if p == 22 { 28 } else { 12 },
    }
}

/// A card that the chance deck can hold: its targets lie on the board.
pub open spec fn chance_card_ok(c: Option<Movement>) -> bool {
    match c {
        Some(Movement::Absolute(x)) => 0 <= x < 40,
        Some(Movement::Relative(x)) => -40 <= x <= 12,
        _ => true,
    }
}

/// A card that the community-chest deck can hold: as for chance, but no
/// "nearest" card, which is defined from chance spaces only.
pub open spec fn chest_card_ok(c: Option<Movement>) -> bool {
    chance_card_ok(c) && !(c matches Some(Movement::Nearest(_)))
}

/// The state of a game as mathematical values.
pub struct GameView {
    pub dice: Dice,
    pub chance: Seq<Option<Movement>>,
    pub chance_owned: bool,
    pub chest: Seq<Option<Movement>>,
    pub chest_owned: bool,
    pub position: int,
    pub escape_attempts: int,
}

impl GameView {
    /// Both decks have sixteen slots of cards they may hold, the dice and
    /// the position are in range, and fewer than three escape attempts
    /// have been made.
    pub open spec fn wf(self) -> bool {
        &&& self.dice.wf()
        &&& self.chance.len() == 16
        &&& self.chest.len() == 16
        &&& forall|i: int| 0 <= i < 16 ==> chance_card_ok(#[trigger] self.chance[i])
        &&& forall|i: int| 0 <= i < 16 ==> chest_card_ok(#[trigger] self.chest[i])
        &&& 0 <= self.position < 40
        &&& 0 <= self.escape_attempts < 3
    }
}

/// Applies a drawn card: the new state, and the new position if the
/// player moved. A get-out-of-jail-free card is recorded as held in the
/// community-chest deck, whichever deck it came from.
pub open spec fn apply_card(g: GameView, card: Option<Movement>) -> (GameView, Option<int>) {
    match card {
        None => (g, None),
        Some(Movement::JailFree) => (GameView { chest_owned: true, ..g }, None),
        Some(m) => {
            let p = match m {
                Movement::Absolute(x) => x as int,
                Movement::Relative(x) => wrapped(g.position, x as int),
                Movement::Nearest(t) => nearest(g.position, t),
                Movement::JailFree => g.position,
            };
            (GameView { position: p, ..g }, Some(p))
        },
    }
}

/// Resolves the space the player stands on: a chest or chance space draws
/// the top card of its deck and applies it; any other space does nothing.
pub open spec fn space_action(g: GameView) -> (GameView, Option<int>) {
    if is_chest_space(g.position) {
        let card = g.chest[0];
        apply_card(
            GameView {
                chest: after_draw(g.chest, g.chest_owned),
                chest_owned: owned_after_draw(card, g.chest_owned),
                ..g
            },
            card,
        )
    } else if is_chance_space(g.position) {
        let card = g.chance[0];
        apply_card(
            GameView {
                chance: after_draw(g.chance, g.chance_owned),
                chance_owned: owned_after_draw(card, g.chance_owned),
                ..g
            },
            card,
        )
    } else {
        (g, None)
    }
}

/// The positions an optional move records.
pub open spec fn recorded(o: Option<int>) -> Seq<int> {
    match o {
        Some(p) => seq![p],
        None => Seq::empty(),
    }
}

/// One roll and move: advance by the roll, record the space, resolve it.
pub open spec fn step(g: GameView, d: Dice) -> (GameView, Seq<int>) {
    let p = wrapped(g.position, d.total());
    let (g2, o) = space_action(GameView { dice: d, position: p, ..g });
    (g2, seq![p].add(recorded(o)))
}

/// A whole turn, given the rolls it may use in order: the new state and
/// every position visited.
pub open spec fn turn(g: GameView, d1: Dice, d2: Dice, d3: Dice) -> (GameView, Seq<int>) {
    if g.position == 30 {
        if d1.doubles() {
            let p = 10 + d1.total();
            let (g2, o) = space_action(
                GameView { dice: d1, position: p, escape_attempts: 0, ..g },
            );
            (g2, seq![p].add(recorded(o)))
        } else if g.escape_attempts + 1 == 3 {
            (GameView { dice: d1, position: 10, escape_attempts: 0, ..g }, seq![10])
        } else {
            (GameView { dice: d1, escape_attempts: g.escape_attempts + 1, ..g }, Seq::empty())
        }
    } else {
        let (g1, s1) = step(g, d1);
        if !d1.doubles() {
            (g1, s1)
        } else {
            let (g2, s2) = step(g1, d2);
            if !d2.doubles() {
                (g2, s1.add(s2))
            } else if d3.doubles() {
                (GameView { dice: d3, position: 30, ..g2 }, s1.add(s2).push(30))
            } else {
                let (g3, s3) = step(g2, d3);
                (g3, s1.add(s2).add(s3))
            }
        }
    }
}

/// Positions as integers.
pub open spec fn positions_of(v: Seq<i8>) -> Seq<int> {
    v.map_values(|x: i8| x as int)
}

/// Every card of `cards` is one of `source`'s, so satisfies what all of
/// those satisfy.
proof fn lemma_cards_from(
    cards: Seq<Option<Movement>>,
    source: Seq<Option<Movement>>,
    ok: spec_fn(Option<Movement>) -> bool,
)
    requires
        cards.to_multiset() == source.to_multiset(),
        forall|j: int| 0 <= j < source.len() ==> #[trigger] ok(source[j]),
    ensures
        forall|i: int| 0 <= i < cards.len() ==> #[trigger] ok(cards[i]),
{
    broadcast use vstd::seq_lib::group_to_multiset_ensures;

    assert forall|i: int| 0 <= i < cards.len() implies #[trigger] ok(cards[i]) by {
        assert(cards.contains(cards[i]));
        assert(source.to_multiset().count(cards[i]) > 0);
        assert(source.contains(cards[i]));
    }
}

/// Drawing from a chance deck leaves only cards a chance deck may hold.
proof fn lemma_draw_keeps_chance_cards(cards: Seq<Option<Movement>>, owned: bool)
    requires
        cards.len() == 16,
        forall|j: int| 0 <= j < 16 ==> chance_card_ok(#[trigger] cards[j]),
    ensures
        forall|i: int| 0 <= i < 16 ==> chance_card_ok(#[trigger] after_draw(cards, owned)[i]),
{
    let ok = |c: Option<Movement>| chance_card_ok(c);
    lemma_draw_permutes(cards, owned);
    assert forall|j: int| 0 <= j < cards.len() implies #[trigger] ok(cards[j]) by {}
    lemma_cards_from(after_draw(cards, owned), cards, ok);
    assert forall|i: int| 0 <= i < 16 implies chance_card_ok(
        #[trigger] after_draw(cards, owned)[i],
    ) by {
        assert(ok(after_draw(cards, owned)[i]));
    }
}

/// Drawing from a community-chest deck leaves only cards such a deck may
/// hold.
proof fn lemma_draw_keeps_chest_cards(cards: Seq<Option<Movement>>, owned: bool)
    requires
        cards.len() == 16,
        forall|j: int| 0 <= j < 16 ==> chest_card_ok(#[trigger] cards[j]),
    ensures
        forall|i: int| 0 <= i < 16 ==> chest_card_ok(#[trigger] after_draw(cards, owned)[i]),
{
    let ok = |c: Option<Movement>| chest_card_ok(c);
    lemma_draw_permutes(cards, owned);
    assert forall|j: int| 0 <= j < cards.len() implies #[trigger] ok(cards[j]) by {}
    lemma_cards_from(after_draw(cards, owned), cards, ok);
    assert forall|i: int| 0 <= i < 16 implies chest_card_ok(
        #[trigger] after_draw(cards, owned)[i],
    ) by {
        assert(ok(after_draw(cards, owned)[i]));
    }
}

/// A position as an integer, if there is one.
pub open spec fn position_of(o: Option<i8>) -> Option<int> {
    match o {
        Some(x) => Some(x as int),
        None => None,
    }
}

/// A card is drawn exactly on the card spaces: from the community-chest
/// deck on 2, 17 and 33, from the chance deck on 7, 22 and 36, and from
/// neither anywhere else.
pub proof fn lemma_draws_only_on_card_spaces(g: GameView)
    ensures
        is_chest_space(g.position) ==> space_action(g).0.chest == after_draw(
            g.chest,
            g.chest_owned,
        ) && space_action(g).0.chance == g.chance,
        is_chance_space(g.position) ==> space_action(g).0.chance == after_draw(
            g.chance,
            g.chance_owned,
        ) && space_action(g).0.chest == g.chest,
        !is_chest_space(g.position) && !is_chance_space(g.position) ==> space_action(g) == (
        g,
        None::<int>,
        ),
{
}

/// From the jail space with no failed attempt yet, three turns whose first
/// rolls are not doubles keep the player jailed for two turns, recording
/// nothing, and then release them to space 10 with the attempt counter
/// back at zero, whatever the rolls were.
pub proof fn lemma_forced_release(
    g: GameView,
    a1: Dice,
    a2: Dice,
    a3: Dice,
    b1: Dice,
    b2: Dice,
    b3: Dice,
    c1: Dice,
    c2: Dice,
    c3: Dice,
)
    requires
        g.position == 30,
        g.escape_attempts == 0,
        !a1.doubles(),
        !b1.doubles(),
        !c1.doubles(),
    ensures
        turn(g, a1, a2, a3).1 == Seq::<int>::empty(),
        turn(g, a1, a2, a3).0.position == 30,
        turn(turn(g, a1, a2, a3).0, b1, b2, b3).1 == Seq::<int>::empty(),
        turn(turn(g, a1, a2, a3).0, b1, b2, b3).0.position == 30,
        turn(turn(turn(g, a1, a2, a3).0, b1, b2, b3).0, c1, c2, c3).1 == seq![10int],
        turn(turn(turn(g, a1, a2, a3).0, b1, b2, b3).0, c1, c2, c3).0.position == 10,
        turn(turn(turn(g, a1, a2, a3).0, b1, b2, b3).0, c1, c2, c3).0.escape_attempts == 0,
{
}

/// Simulation state: dice, both decks, the board position and the number
/// of failed attempts to roll out of jail.
pub struct Game {
    dice: Dice,
    chance_deck: Deck,
    community_chest_deck: Deck,
    position: Space,
    escape_attempts: u8,
}

impl View for Game {
    type V = GameView;

    closed spec fn view(&self) -> GameView {
        GameView {
            dice: self.dice,
            chance: self.chance_deck@,
            chance_owned: self.chance_deck.holds_jail_free(),
            chest: self.community_chest_deck@,
            chest_owned: self.community_chest_deck.holds_jail_free(),
            position: self.position.0 as int,
            escape_attempts: self.escape_attempts as int,
        }
    }
}

impl Game {
    /// The state is one that the turn rules can continue from.
    pub open spec fn wf(&self) -> bool {
        self@.wf()
    }

    /// A game on the start space with freshly shuffled decks.
    pub fn new() -> (r: Game)
        ensures
            r.wf(),
            r@.position == 0,
            r@.escape_attempts == 0,
            r@.chance.to_multiset() == chance_recipe().to_multiset(),
            r@.chest.to_multiset() == community_chest_recipe().to_multiset(),
            !r@.chance_owned,
            !r@.chest_owned,
    {
        let dice = Dice::new();
        let chance_deck = Deck::new_chance_deck();
        let community_chest_deck = Deck::new_community_chest_deck();
        let position = Space::new();
        proof {
            let ch = chance_recipe();
            let cc = community_chest_recipe();
            assert forall|j: int| 0 <= j < ch.len() implies #[trigger] chance_card_ok(ch[j]) by {
            }
            assert forall|j: int| 0 <= j < cc.len() implies #[trigger] chest_card_ok(cc[j]) by {
            }
            lemma_cards_from(chance_deck@, ch, |c: Option<Movement>| chance_card_ok(c));
            lemma_cards_from(community_chest_deck@, cc, |c: Option<Movement>| chest_card_ok(c));
            assert forall|i: int| 0 <= i < 16 implies #[trigger] chance_card_ok(chance_deck@[i]) by {
                let ok = |c: Option<Movement>| chance_card_ok(c);
                assert(ok(chance_deck@[i]));
            }
            assert forall|i: int| 0 <= i < 16 implies #[trigger] chest_card_ok(
                community_chest_deck@[i],
            ) by {
                let ok = |c: Option<Movement>| chest_card_ok(c);
                assert(ok(community_chest_deck@[i]));
            }
        }
        Game { dice, chance_deck, community_chest_deck, position, escape_attempts: 0 }
    }

    /// Draws and applies a card when the player stands on a chest or
    /// chance space; returns the new position if the card moved the player.
    fn evaluate_space_action(&mut self) -> (r: Option<i8>)
        requires
            old(self).wf(),
        ensures
            final(self).wf(),
            final(self)@ == space_action(old(self)@).0,
            position_of(r) == space_action(old(self)@).1,
    {
        let p = self.position.value();
        let card = if p == 2 || p == 17 || p == 33 {
            proof {
                lemma_draw_keeps_chest_cards(
                    self.community_chest_deck@,
                    self.community_chest_deck.holds_jail_free(),
                );
            }
            self.community_chest_deck.draw()
        } else if p == 7 || p == 22 || p == 36 {
            proof {
                lemma_draw_keeps_chance_cards(
                    self.chance_deck@,
                    self.chance_deck.holds_jail_free(),
                );
            }
            self.chance_deck.draw()
        } else {
            return None;
        };
        match card {
            None => None,
            Some(Movement::Absolute(x)) => {
                self.position.move_to(x);
                Some(self.position.value())
            },
            Some(Movement::Relative(x)) => {
                self.position.move_by(x);
                Some(self.position.value())
            },
            Some(Movement::Nearest(t)) => {
                let x: i8 = match t {
                    SpaceType::Railroad => if p == 7 {
                        15
                    } else if p == 22 {
                        25
                    } else {
                        5
                    },
                    SpaceType::Utility => if p == 7 {
                        12
                    } else if p == 22 {
                        28
                    } else {
                        12
                    },
                };
                self.position.move_to(x);
                Some(self.position.value())
            },
            Some(Movement::JailFree) => {
                self.community_chest_deck.set_jail_free_owned();
                None
            },
        }
    }

    /// One roll and move: sets the dice to `d`, advances by its value,
    /// records the space and resolves it.
    fn advance(&mut self, d: Dice, positions: &mut Vec<i8>)
        requires
            old(self).wf(),
            d.wf(),
        ensures
            final(self).wf(),
            final(self)@ == step(old(self)@, d).0,
            positions_of(final(positions)@) == positions_of(old(positions)@).add(
                step(old(self)@, d).1,
            ),
    {
        self.dice = d;
        self.position.move_by(d.value());
        let ghost before = positions@;
        positions.push(self.position.value());
        let ghost moved = positions@;
        assert(positions_of(moved) =~= positions_of(before).push(self.position.0 as int));
        if let Some(p) = self.evaluate_space_action() {
            positions.push(p);
            assert(positions_of(positions@) =~= positions_of(moved).push(p as int));
        }
        assert(positions_of(positions@) =~= positions_of(before).add(step(old(self)@, d).1));
    }

    /// Plays one turn with the given rolls, used in order as the turn needs
    /// them, and returns every position visited.
    pub fn take_turn_with(&mut self, first: Dice, second: Dice, third: Dice) -> (r: Vec<i8>)
        requires
            old(self).wf(),
            first.wf(),
            second.wf(),
            third.wf(),
        ensures
            final(self).wf(),
            final(self)@ == turn(old(self)@, first, second, third).0,
            positions_of(r@) == turn(old(self)@, first, second, third).1,
    {
        let mut positions: Vec<i8> = Vec::new();
        assert(positions_of(positions@) =~= Seq::<int>::empty());
        if self.position.value() == JAIL {
            self.dice = first;
            if first.is_doubles() {
                self.position.move_to(JUST_VISITING);
                self.position.move_by(first.value());
                positions.push(self.position.value());
                self.escape_attempts = 0;
                let ghost moved = positions@;
                assert(positions_of(moved) =~= seq![self.position.0 as int]);
                if let Some(p) = self.evaluate_space_action() {
                    positions.push(p);
                    assert(positions_of(positions@) =~= positions_of(moved).push(p as int));
                }
            } else {
                self.escape_attempts = self.escape_attempts + 1;
                if self.escape_attempts == 3 {
                    self.position.move_to(JUST_VISITING);
                    positions.push(self.position.value());
                    self.escape_attempts = 0;
                    assert(positions_of(positions@) =~= seq![10int]);
                }
            }
        } else {
            self.advance(first, &mut positions);
            if !first.is_doubles() {
                return positions;
            }
            self.advance(second, &mut positions);
            if !second.is_doubles() {
                return positions;
            }
            if third.is_doubles() {
                self.dice = third;
                self.position.move_to(JAIL);
                let ghost s12 = positions_of(positions@);
                positions.push(self.position.value());
                assert(positions_of(positions@) =~= s12.push(30));
            } else {
                self.advance(third, &mut positions);
            }
        }
        positions
    }

    /// Plays one turn with fresh rolls and returns every position visited.
    pub fn take_turn(&mut self) -> (r: Vec<i8>)
        requires
            old(self).wf(),
        ensures
            final(self).wf(),
            exists|first: Dice, second: Dice, third: Dice|
                first.wf() && second.wf() && third.wf() && final(self)@ == turn(
                    old(self)@,
                    first,
                    second,
                    third,
                ).0 && positions_of(r@) == turn(old(self)@, first, second, third).1,
    {
        let first = Dice::new();
        let second = Dice::new();
        let third = Dice::new();
        self.take_turn_with(first, second, third)
    }

    /// The board position.
    pub fn position(&self) -> (r: i8)
        ensures
            r as int == self@.position,
    {
        self.position.value()
    }

    /// Consecutive rolls without doubles while in jail.
    pub fn escape_attempts(&self) -> (r: u8)
        ensures
            r as int == self@.escape_attempts,
    {
        self.escape_attempts
    }

    /// The chance deck.
    pub fn chance_deck(&self) -> (r: &Deck)
        ensures
            r@ == self@.chance,
            r.holds_jail_free() == self@.chance_owned,
    {
        &self.chance_deck
    }

    /// The community-chest deck.
    pub fn community_chest_deck(&self) -> (r: &Deck)
        ensures
            r@ == self@.chest,
            r.holds_jail_free() == self@.chest_owned,
    {
        &self.community_chest_deck
    }
}

} // verus!
