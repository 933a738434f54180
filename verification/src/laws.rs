//! Properties of the rules that hold across turns and operations.
use vstd::prelude::*;
use crate::category::{Category, CATEGORY_COUNT, category_for_place, category_name};
use crate::dummy_deck::{NUM_CARDS_PER_CATEGORY, full_pile};
use crate::text::{decimal_digits, digits_value, lemma_decimal_digits_denote};
use crate::dice::Dice;
use crate::game::{AskQuestionResult, GameView, MAX_PLAYERS, NUM_PLACES, TARGET_SCORE};
use crate::observer::GameEvent;

verus! {

/// Seating a player keeps the table valid, as long as a seat is left after
/// theirs; the new player starts on the first square, with no coins and out
/// of the penalty box, and no card is drawn.
pub proof fn lemma_add_keeps_valid(v: GameView, name: Seq<char>)
    requires
        v.valid(),
        v.players.len() + 1 < MAX_PLAYERS,
    ensures
        v.after_add(name).valid(),
        v.after_add(name).players.len() == v.players.len() + 1,
        v.after_add(name).players.last() == name,
        v.after_add(name).places[v.players.len() as int] == 0,
        v.after_add(name).purses[v.players.len() as int] == 0,
        !v.after_add(name).in_penalty_box[v.players.len() as int],
        v.after_add(name).drawn == v.drawn,
{
}

/// Every turn keeps the table valid: everyone stays on the board and the
/// current player is one of the players.
pub proof fn lemma_roll_keeps_valid(v: GameView, roll: Dice, answer: Option<bool>)
    requires
        v.valid(),
        v.players.len() > 0,
        v.current_purse() < usize::MAX,
    ensures
        v.after_roll(roll, answer).0.valid(),
        v.after_roll(roll, answer).0.players == v.players,
{
    let s = v.after_roll_start(roll);
    assert(s.valid());
    if !v.stays_in_penalty_box(roll) {
        let a = s.after_ask(answer);
        assert(a.valid());
        assert(a.after_win_point().valid());
        assert(a.after_go_to_penalty_box().valid());
    }
}

/// Moving goes round the board: a player not held in the penalty box ends on
/// the square `roll` squares ahead, counted modulo the board's size, and is
/// asked a question of that square's category: exactly one card of it is
/// drawn from the deck.
pub proof fn lemma_roll_moves_round_the_board(v: GameView, roll: Dice, answer: Option<bool>)
    requires
        v.valid(),
        v.players.len() > 0,
        !v.stays_in_penalty_box(roll),
    ensures
        ({
            let place = ((v.current_place() + roll.spec_value()) % (NUM_PLACES as int)) as usize;
            let asked = v.after_roll_start(roll).after_ask(answer);
            &&& asked.places[v.current_player as int] == place
            &&& asked.events.last() == GameEvent::AskedQuestion(category_for_place(place as int))
            &&& v.after_roll(roll, answer).0.places[v.current_player as int] == place
            &&& v.after_roll(roll, answer).0.drawn == v.drawn.push(
                (category_for_place(place as int), answer),
            )
        }),
{
}

/// A player in the penalty box who rolls an even number stays there, does
/// not move, keeps the turn, draws no card, and the game goes on.
pub proof fn lemma_even_roll_keeps_in_penalty_box(v: GameView, roll: Dice, answer: Option<bool>)
    requires
        v.valid(),
        v.players.len() > 0,
        v.current_in_penalty_box(),
        roll.spec_value() % 2 == 0,
    ensures
        v.after_roll(roll, answer).1,
        v.after_roll(roll, answer).0.places == v.places,
        v.after_roll(roll, answer).0.purses == v.purses,
        v.after_roll(roll, answer).0.in_penalty_box == v.in_penalty_box,
        v.after_roll(roll, answer).0.current_player == v.current_player,
        v.after_roll(roll, answer).0.drawn == v.drawn,
{
}

/// A player in the penalty box who rolls an odd number gets out of it.
pub proof fn lemma_odd_roll_leaves_penalty_box(v: GameView, roll: Dice, answer: Option<bool>)
    requires
        v.valid(),
        v.players.len() > 0,
        v.current_in_penalty_box(),
        roll.spec_value() % 2 == 1,
    ensures
        !v.after_roll_start(roll).current_in_penalty_box(),
        v.after_roll_start(roll).getting_out_of_penalty_box,
        answer == Some(true) ==> !v.after_roll(roll, answer).0.in_penalty_box[v.current_player as int],
{
}

/// A wrong answer sends the player to the penalty box.
pub proof fn lemma_wrong_answer_goes_to_penalty_box(v: GameView, roll: Dice, answer: Option<bool>)
    requires
        v.valid(),
        v.players.len() > 0,
        !v.stays_in_penalty_box(roll),
        answer == Some(false),
    ensures
        v.after_roll(roll, answer).0.in_penalty_box[v.current_player as int],
        v.after_roll(roll, answer).0.purses == v.purses,
        v.after_roll(roll, answer).1,
{
}

/// Turns go round the table: once a question is settled, the next player
/// (after the last, the first) has the turn; while the game is stopped for
/// want of cards, or a player stays in the penalty box, the turn does not pass.
pub proof fn lemma_turns_go_round(v: GameView, roll: Dice, answer: Option<bool>)
    requires
        v.valid(),
        v.players.len() > 0,
    ensures
        !v.stays_in_penalty_box(roll) && answer is Some ==> v.after_roll(roll, answer).0.current_player == (v.current_player + 1) % (v.players.len() as int),
        v.stays_in_penalty_box(roll) || answer is None ==> v.after_roll(roll, answer).0.current_player == v.current_player,
{
    let n = v.players.len() as int;
    let c = v.current_player as int;
    if c + 1 < n {
        vstd::arithmetic::div_mod::lemma_small_mod((c + 1) as nat, n as nat);
    } else {
        vstd::arithmetic::div_mod::lemma_mod_self_0(n);
    }
}

/// Coins are only ever earned: each turn the current player gains one coin
/// for a correct answer, and no other purse changes.
pub proof fn lemma_coins_only_grow(v: GameView, roll: Dice, answer: Option<bool>)
    requires
        v.valid(),
        v.players.len() > 0,
        v.current_purse() < usize::MAX,
    ensures
        ({
            let after = v.after_roll(roll, answer).0;
            let earned = !v.stays_in_penalty_box(roll) && answer == Some(true);
            &&& after.purses.len() == v.purses.len()
            &&& forall|i: int|
                0 <= i < v.purses.len() && i != v.current_player ==> #[trigger] after.purses[i]
                    == v.purses[i]
            &&& after.purses[v.current_player as int] == v.current_purse() + (if earned {
                1int
            } else {
                0int
            })
        }),
{
}

/// The game stops exactly when the deck has no card for the question asked,
/// or when a correct answer brings the player to the winning number of coins.
pub proof fn lemma_game_stops(v: GameView, roll: Dice, answer: Option<bool>)
    requires
        v.valid(),
        v.players.len() > 0,
        v.current_purse() < usize::MAX,
    ensures
        !v.after_roll(roll, answer).1 <==> (!v.stays_in_penalty_box(roll) && (answer is None || (
        answer == Some(true) && v.current_purse() + 1 == TARGET_SCORE))),
{
}

/// Every turn tells the observer, first, who rolled what; what earlier turns
/// told it is never changed.
pub proof fn lemma_turn_reports_roll_first(v: GameView, roll: Dice, answer: Option<bool>)
    requires
        v.valid(),
        v.players.len() > 0,
    ensures
        ({
            let events = v.after_roll(roll, answer).0.events;
            &&& events.len() > v.events.len()
            &&& events.subrange(0, v.events.len() as int) == v.events
            &&& events[v.events.len() as int] == GameEvent::Rolled(v.current_name(), roll)
        }),
{
    let events = v.after_roll(roll, answer).0.events;
    assert(events.subrange(0, v.events.len() as int) =~= v.events);
}

/// Seating a player changes nobody else's seat: whose turn it is stays the
/// same, and every player already seated keeps their name, square, coins
/// and penalty-box flag.
pub proof fn lemma_add_changes_no_one_else(v: GameView, name: Seq<char>)
    requires
        v.valid(),
        v.players.len() + 1 < MAX_PLAYERS,
    ensures
        v.after_add(name).current_player == v.current_player,
        v.after_add(name).getting_out_of_penalty_box == v.getting_out_of_penalty_box,
        forall|i: int|
            0 <= i < v.players.len() ==> {
                &&& #[trigger] v.after_add(name).players[i] == v.players[i]
                &&& v.after_add(name).places[i] == v.places[i]
                &&& v.after_add(name).purses[i] == v.purses[i]
                &&& v.after_add(name).in_penalty_box[i] == v.in_penalty_box[i]
            },
        v.after_add(name).events == v.events.push(GameEvent::UserAdded(name)),
{
}

/// Settling an answer touches only the current player's seat: every other
/// player keeps their square, coins and penalty-box flag, and the names at
/// the table do not change.
pub proof fn lemma_answer_changes_only_current_seat(v: GameView, result: AskQuestionResult)
    requires
        v.valid(),
        v.players.len() > 0,
    ensures
        v.after_answer(result).0.players == v.players,
        v.after_answer(result).0.drawn == v.drawn,
        forall|i: int|
            0 <= i < MAX_PLAYERS && i != v.current_player ==> {
                &&& #[trigger] v.after_answer(result).0.in_penalty_box[i] == v.in_penalty_box[i]
                &&& v.after_answer(result).0.places[i] == v.places[i]
                &&& v.after_answer(result).0.purses[i] == v.purses[i]
            },
        v.after_answer(result).0.places[v.current_player as int] == v.current_place(),
{
}

/// A turn touches only the current player's seat: every other player keeps
/// their square, coins and penalty-box flag (also when the current player
/// leaves the box), and the names at the table do not change.
pub proof fn lemma_turn_changes_only_current_seat(v: GameView, roll: Dice, answer: Option<bool>)
    requires
        v.valid(),
        v.players.len() > 0,
    ensures
        v.after_roll(roll, answer).0.players == v.players,
        forall|i: int|
            0 <= i < MAX_PLAYERS && i != v.current_player ==> {
                &&& #[trigger] v.after_roll(roll, answer).0.in_penalty_box[i] == v.in_penalty_box[i]
                &&& v.after_roll(roll, answer).0.places[i] == v.places[i]
                &&& v.after_roll(roll, answer).0.purses[i] == v.purses[i]
            },
{
}

/// A turn leaves the current player in the penalty box exactly when they were
/// in it and rolled even, or answered wrongly.
pub proof fn lemma_penalty_box_after_turn(v: GameView, roll: Dice, answer: Option<bool>)
    requires
        v.valid(),
        v.players.len() > 0,
    ensures
        v.after_roll(roll, answer).0.in_penalty_box[v.current_player as int] <==> ((
        v.current_in_penalty_box() && roll.spec_value() % 2 == 0) || answer == Some(false)),
{
}

/// The square a category is asked on: square `place` asks the category whose
/// position in the declared order is `place` modulo the number of categories.
pub proof fn lemma_category_of_square(place: int)
    requires
        place >= 0,
    ensures
        category_for_place(place).spec_ordinal() == place % (CATEGORY_COUNT as int),
{
}

/// Every pile of the stand-in deck holds questions of its own category only:
/// question `i` of category `c` is `c`'s name, `" Question "`, then the
/// decimal digits that denote `i`.
pub proof fn lemma_pile_holds_own_category(c: Category, i: int)
    requires
        0 <= i < NUM_CARDS_PER_CATEGORY,
    ensures
        full_pile(c).len() == NUM_CARDS_PER_CATEGORY,
        full_pile(c)[i] == category_name(c) + " Question "@ + decimal_digits(i as nat),
        full_pile(c)[i].subrange(0, category_name(c).len() as int) == category_name(c),
        digits_value(
            full_pile(c)[i].subrange(
                (category_name(c).len() + " Question "@.len()) as int,
                full_pile(c)[i].len() as int,
            ),
        ) == i,
{
    let q = full_pile(c)[i];
    let prefix = category_name(c) + " Question "@;
    assert(q.subrange(0, category_name(c).len() as int) =~= category_name(c));
    assert(q.subrange(prefix.len() as int, q.len() as int) =~= decimal_digits(i as nat));
    lemma_decimal_digits_denote(i as nat);
}

/// What a turn tells the observer when the player is not held in the box:
/// who rolled what; that the player left the box, if they were in it; the
/// square reached, `roll` squares ahead round the board; the category asked,
/// the one whose position in the declared order is that square modulo the
/// number of categories; then, for a right answer, the player's new number
/// of coins, for a wrong one, that the player went to the box, and with no
/// card, nothing more.
pub proof fn lemma_turn_notifications(v: GameView, roll: Dice, answer: Option<bool>)
    requires
        v.valid(),
        v.players.len() > 0,
        !(v.current_in_penalty_box() && roll.spec_value() % 2 == 0),
        v.current_purse() < usize::MAX,
    ensures
        ({
            let name = v.current_name();
            let place = ((v.current_place() + roll.spec_value()) % (NUM_PLACES as int)) as usize;
            let head = if v.current_in_penalty_box() {
                seq![GameEvent::Rolled(name, roll), GameEvent::LeftPenaltyBox(name)]
            } else {
                seq![GameEvent::Rolled(name, roll)]
            };
            let asked = head + seq![
                GameEvent::Moved(name, place),
                GameEvent::AskedQuestion(category_for_place(place as int)),
            ];
            let told = match answer {
                Some(true) => asked + seq![
                    GameEvent::WonPoint(name, (v.current_purse() + 1) as usize),
                ],
                Some(false) => asked + seq![GameEvent::WentToPenaltyBox(name)],
                None => asked,
            };
            &&& v.after_roll(roll, answer).0.events == v.events + told
            &&& category_for_place(place as int).spec_ordinal() == (place as int) % (CATEGORY_COUNT as int)
        }),
{
    let name = v.current_name();
    let place = ((v.current_place() + roll.spec_value()) % (NUM_PLACES as int)) as usize;
    let head = if v.current_in_penalty_box() {
        seq![GameEvent::Rolled(name, roll), GameEvent::LeftPenaltyBox(name)]
    } else {
        seq![GameEvent::Rolled(name, roll)]
    };
    let asked = head + seq![
        GameEvent::Moved(name, place),
        GameEvent::AskedQuestion(category_for_place(place as int)),
    ];
    let after = v.after_roll(roll, answer).0;
    match answer {
        Some(true) => {
            assert(after.events =~= v.events + (asked + seq![
                GameEvent::WonPoint(name, (v.current_purse() + 1) as usize),
            ]));
        },
        Some(false) => {
            assert(after.events =~= v.events + (asked + seq![GameEvent::WentToPenaltyBox(name)]));
        },
        None => {
            assert(after.events =~= v.events + asked);
        },
    }
}

} // verus!
