//! What the game needs from its surroundings: a deck of cards to draw
//! questions from, and an observer that is told what happens.
use vstd::prelude::*;
use crate::category::Category;
use crate::dice::Dice;

verus! {

/// One notification the game gives its observer, with the values it passes.
pub enum GameEvent {
    UserAdded(Seq<char>),
    Rolled(Seq<char>, Dice),
    Moved(Seq<char>, usize),
    AskedQuestion(Category),
    WonPoint(Seq<char>, usize),
    WentToPenaltyBox(Seq<char>),
    LeftPenaltyBox(Seq<char>),
    StayedInPenaltyBox(Seq<char>),
}

/// Receives every notable step of the game, in the order it happens.
///
/// `told` is the record of the notifications an observer has received:
/// each method adds exactly its own notification, with the values passed.
/// An implementation written in plain Rust need not define `told`; the
/// empty record given here is only the default for such implementations,
/// and the game, which is generic in its observer, never relies on it.
pub trait GameObserver {
    closed spec fn told(&self) -> Seq<GameEvent> {
        Seq::empty()
    }

    fn on_user_added(&mut self, new_player_name: &str)
        ensures
            final(self).told() == old(self).told().push(GameEvent::UserAdded(new_player_name@)),
    ;

    fn on_roll(&mut self, player: &str, roll: Dice)
        ensures
            final(self).told() == old(self).told().push(GameEvent::Rolled(player@, roll)),
    ;

    fn on_move(&mut self, player: &str, new_position: usize)
        ensures
            final(self).told() == old(self).told().push(GameEvent::Moved(player@, new_position)),
    ;

    fn on_ask_question(&mut self, category: Category)
        ensures
            final(self).told() == old(self).told().push(GameEvent::AskedQuestion(category)),
    ;

    fn on_win_point(&mut self, player: &str, new_score: usize)
        ensures
            final(self).told() == old(self).told().push(GameEvent::WonPoint(player@, new_score)),
    ;

    fn on_go_to_penalty_box(&mut self, player: &str)
        ensures
            final(self).told() == old(self).told().push(GameEvent::WentToPenaltyBox(player@)),
    ;

    fn on_leave_penalty_box(&mut self, player: &str)
        ensures
            final(self).told() == old(self).told().push(GameEvent::LeftPenaltyBox(player@)),
    ;

    fn on_stay_in_penalty_box(&mut self, player: &str)
        ensures
            final(self).told() == old(self).told().push(GameEvent::StayedInPenaltyBox(player@)),
    ;
}

/// A question card. The game asks each card it draws once; `answer` is
/// whether the question was answered correctly when it was asked. An
/// implementation written in plain Rust need not define `answer`; the game
/// never relies on the default given here.
pub trait Card {
    closed spec fn answer(&self) -> bool {
        true
    }

    fn ask_question(&self) -> (r: bool)
        ensures
            r == self.answer(),
    ;
}

/// What drawing from a deck gave: the answer of the card handed out, or
/// `None` when the category had run out.
pub open spec fn card_answer(card: Option<Box<dyn Card>>) -> Option<bool> {
    match card {
        Some(c) => Some(c.answer()),
        None => None,
    }
}

/// Where question cards come from; `None` when the category has run out.
///
/// `drawn` is the record of the draws from a deck: each draw adds the
/// category asked for and what it gave. An implementation written in plain
/// Rust need not define `drawn`; the game, which is generic in its deck,
/// never relies on the empty default given here.
pub trait Deck {
    closed spec fn drawn(&self) -> Seq<(Category, Option<bool>)> {
        Seq::empty()
    }

    fn take_card(&mut self, category: Category) -> (card: Option<Box<dyn Card>>)
        ensures
            final(self).drawn() == old(self).drawn().push((category, card_answer(card))),
    ;
}

/// A boxed deck is drawn from as the deck inside it.
impl<T: Deck + ?Sized> Deck for Box<T> {
    closed spec fn drawn(&self) -> Seq<(Category, Option<bool>)> {
        (**self).drawn()
    }

    fn take_card(&mut self, category: Category) -> (card: Option<Box<dyn Card>>) {
        (**self).take_card(category)
    }
}

/// A boxed observer is told what the observer inside it is told.
impl<T: GameObserver + ?Sized> GameObserver for Box<T> {
    closed spec fn told(&self) -> Seq<GameEvent> {
        (**self).told()
    }

    fn on_user_added(&mut self, new_player_name: &str) {
        (**self).on_user_added(new_player_name)
    }

    fn on_roll(&mut self, player: &str, roll: Dice) {
        (**self).on_roll(player, roll)
    }

    fn on_move(&mut self, player: &str, new_position: usize) {
        (**self).on_move(player, new_position)
    }

    fn on_ask_question(&mut self, category: Category) {
        (**self).on_ask_question(category)
    }

    fn on_win_point(&mut self, player: &str, new_score: usize) {
        (**self).on_win_point(player, new_score)
    }

    fn on_go_to_penalty_box(&mut self, player: &str) {
        (**self).on_go_to_penalty_box(player)
    }

    fn on_leave_penalty_box(&mut self, player: &str) {
        (**self).on_leave_penalty_box(player)
    }

    fn on_stay_in_penalty_box(&mut self, player: &str) {
        (**self).on_stay_in_penalty_box(player)
    }
}

} // verus!
