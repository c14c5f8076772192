use movement1::{Deck, Dice, Game, Movement};

fn slots(deck: &Deck) -> Vec<Option<Movement>> {
    (0..16).map(|i| deck.card_at(i)).collect()
}

fn jailed_game() -> Game {
    let mut game = Game::new();
    let visited = game.take_turn_with(Dice(5, 5), Dice(5, 5), Dice(3, 3));
    assert_eq!(visited, vec![10, 20, 30]);
    assert_eq!(game.position(), 30);
    game
}

#[test]
fn new_game_starts_on_go() {
    let game = Game::new();
    assert_eq!(game.position(), 0);
    assert_eq!(game.escape_attempts(), 0);
    assert!(!game.chance_deck().get_out_of_jail_free_owned);
    assert!(!game.community_chest_deck().get_out_of_jail_free_owned);
}

#[test]
fn plain_roll_ends_turn() {
    let mut game = Game::new();
    assert_eq!(game.take_turn_with(Dice(2, 3), Dice(1, 1), Dice(1, 1)), vec![5]);
    assert_eq!(game.position(), 5);
}

#[test]
fn doubles_roll_again() {
    let mut game = Game::new();
    assert_eq!(game.take_turn_with(Dice(2, 2), Dice(2, 4), Dice(1, 1)), vec![4, 10]);
    assert_eq!(game.position(), 10);
}

#[test]
fn two_doubles_then_plain_roll_moves_three_times() {
    let mut game = Game::new();
    assert_eq!(game.take_turn_with(Dice(5, 5), Dice(1, 1), Dice(1, 2)), vec![10, 12, 15]);
    assert_eq!(game.position(), 15);
}

#[test]
fn three_doubles_go_to_jail() {
    let game = jailed_game();
    assert_eq!(game.escape_attempts(), 0);
}

#[test]
fn jail_released_after_three_plain_rolls() {
    let mut game = jailed_game();
    assert_eq!(game.take_turn_with(Dice(1, 2), Dice(1, 1), Dice(1, 1)), Vec::<i8>::new());
    assert_eq!(game.escape_attempts(), 1);
    assert_eq!(game.position(), 30);
    assert_eq!(game.take_turn_with(Dice(6, 5), Dice(2, 2), Dice(3, 3)), Vec::<i8>::new());
    assert_eq!(game.escape_attempts(), 2);
    assert_eq!(game.take_turn_with(Dice(4, 3), Dice(5, 5), Dice(6, 6)), vec![10]);
    assert_eq!(game.position(), 10);
    assert_eq!(game.escape_attempts(), 0);
}

#[test]
fn jail_doubles_escape_and_move() {
    let mut game = jailed_game();
    game.take_turn_with(Dice(1, 2), Dice(1, 1), Dice(1, 1));
    assert_eq!(game.escape_attempts(), 1);
    assert_eq!(game.take_turn_with(Dice(2, 2), Dice(1, 2), Dice(1, 2)), vec![14]);
    assert_eq!(game.position(), 14);
    assert_eq!(game.escape_attempts(), 0);
}

#[test]
fn plain_space_draws_nothing() {
    let mut game = Game::new();
    let chance = slots(game.chance_deck());
    let chest = slots(game.community_chest_deck());
    game.take_turn_with(Dice(2, 3), Dice(1, 1), Dice(1, 1));
    assert_eq!(slots(game.chance_deck()), chance);
    assert_eq!(slots(game.community_chest_deck()), chest);
}

#[test]
fn chance_space_draws_from_chance_deck() {
    let mut game = Game::new();
    let chance = slots(game.chance_deck());
    let chest = slots(game.community_chest_deck());
    let visited = game.take_turn_with(Dice(3, 4), Dice(1, 1), Dice(1, 1));
    assert_eq!(visited[0], 7);
    let mut expected = chance[1..].to_vec();
    expected.push(chance[0]);
    assert_eq!(slots(game.chance_deck()), expected);
    assert_eq!(slots(game.community_chest_deck()), chest);
    match chance[0] {
        Some(Movement::Absolute(x)) => assert_eq!(visited, vec![7, x]),
        Some(Movement::Relative(x)) => assert_eq!(visited, vec![7, 7 + x]),
        Some(Movement::Nearest(movement1::SpaceType::Railroad)) => {
            assert_eq!(visited, vec![7, 15])
        },
        Some(Movement::Nearest(movement1::SpaceType::Utility)) => {
            assert_eq!(visited, vec![7, 12])
        },
        Some(Movement::JailFree) | None => assert_eq!(visited, vec![7]),
    }
}

#[test]
fn chest_space_draws_from_chest_deck() {
    let mut game = Game::new();
    let chance = slots(game.chance_deck());
    let chest = slots(game.community_chest_deck());
    let visited = game.take_turn_with(Dice(5, 5), Dice(3, 4), Dice(1, 1));
    assert_eq!(visited[..2], [10, 17]);
    let mut expected = chest[1..].to_vec();
    expected.push(chest[0]);
    assert_eq!(slots(game.community_chest_deck()), expected);
    assert_eq!(slots(game.chance_deck()), chance);
}

#[test]
fn chance_jail_free_marks_community_chest_deck() {
    let mut game = Game::new();
    let mut tries = 0;
    while game.chance_deck().card_at(0) != Some(Movement::JailFree) {
        game = Game::new();
        tries += 1;
        assert!(tries < 10000);
    }
    let visited = game.take_turn_with(Dice(3, 4), Dice(1, 1), Dice(1, 1));
    assert_eq!(visited, vec![7]);
    assert!(game.chance_deck().get_out_of_jail_free_owned);
    assert!(game.community_chest_deck().get_out_of_jail_free_owned);
}

#[test]
fn random_turns_stay_on_board() {
    let mut game = Game::new();
    for _ in 0..10000 {
        let visited = game.take_turn();
        assert!(visited.len() <= 6);
        for p in visited {
            assert!((0..40).contains(&p));
        }
        assert!(game.escape_attempts() < 3);
    }
}
