//! The rules of the game: joining, rolling, moving, the penalty box,
//! answering questions and winning.
use vstd::prelude::*;
use crate::category::{Category, CATEGORY_COUNT, all_categories, category_for_place};
use crate::dice::Dice;
use crate::observer::{Deck, GameEvent, GameObserver};

verus! {

/// The number of seats at the table.
pub const MAX_PLAYERS: usize = 6;

/// How many squares of each category the board has.
pub const NUM_PLACES_PER_CATEGORY: usize = 3;

/// The number of squares on the board.
pub const NUM_PLACES: usize = CATEGORY_COUNT * NUM_PLACES_PER_CATEGORY;

/// The number of coins that wins the game.
pub const TARGET_SCORE: usize = 6;

/// What asking a question gave: whether the deck still had a card, and
/// whether the question on it was answered correctly.
#[derive(Clone, Copy, Debug, PartialEq, Eq, Structural)]
pub struct AskQuestionResult {
    pub game_must_go_on: bool,
    pub answered_correctly: bool,
}

/// What a draw giving `answer` means for the game: with a card, the game
/// goes on and the answer is the card's; with no card, it cannot go on.
pub open spec fn question_outcome(answer: Option<bool>) -> AskQuestionResult {
    match answer {
        Some(a) => AskQuestionResult { game_must_go_on: true, answered_correctly: a },
        None => AskQuestionResult { game_must_go_on: false, answered_correctly: false },
    }
}

/// What a draw giving `answer` means for the game: with a card, the game
/// goes on and the answer is the card's; with no card, it cannot go on.
pub fn outcome_of(answer: Option<bool>) -> (r: AskQuestionResult)
    ensures
        r == question_outcome(answer),
{
    match answer {
        Some(a) => AskQuestionResult { game_must_go_on: true, answered_correctly: a },
        None => AskQuestionResult { game_must_go_on: false, answered_correctly: false },
    }
}

/// The state of a game as the rules see it, with the observer's record of
/// the notifications it was given and the deck's record of the draws made.
pub struct GameView {
    pub players: Seq<Seq<char>>,
    pub places: Seq<usize>,
    pub purses: Seq<usize>,
    pub in_penalty_box: Seq<bool>,
    pub current_player: usize,
    pub getting_out_of_penalty_box: bool,
    pub events: Seq<GameEvent>,
    pub drawn: Seq<(Category, Option<bool>)>,
}

/// A game before anyone has joined, with an observer and a deck whose
/// records are `told` and `drawn`.
pub open spec fn initial_view(told: Seq<GameEvent>, drawn: Seq<(Category, Option<bool>)>) -> GameView {
    GameView {
        players: Seq::empty(),
        places: Seq::new(MAX_PLAYERS as nat, |i: int| 0usize),
        purses: Seq::new(MAX_PLAYERS as nat, |i: int| 0usize),
        in_penalty_box: Seq::new(MAX_PLAYERS as nat, |i: int| false),
        current_player: 0,
        getting_out_of_penalty_box: false,
        events: told,
        drawn: drawn,
    }
}

impl GameView {
    /// The table's invariant: fewer players than seats, one of them (if any)
    /// is the current player, everyone stands on a square of the board, and
    /// the seats no one has taken are clear.
    pub open spec fn valid(self) -> bool {
        &&& self.players.len() < MAX_PLAYERS
        &&& self.places.len() == MAX_PLAYERS
        &&& self.purses.len() == MAX_PLAYERS
        &&& self.in_penalty_box.len() == MAX_PLAYERS
        &&& (self.players.len() == 0 ==> self.current_player == 0)
        &&& (self.players.len() > 0 ==> self.current_player < self.players.len())
        &&& forall|i: int| 0 <= i < MAX_PLAYERS ==> #[trigger] self.places[i] < NUM_PLACES
        &&& forall|i: int| self.players.len() <= i < MAX_PLAYERS ==> #[trigger] self.places[i] == 0
        &&& forall|i: int| self.players.len() <= i < MAX_PLAYERS ==> #[trigger] self.purses[i] == 0
        &&& forall|i: int|
            self.players.len() <= i < MAX_PLAYERS ==> !#[trigger] self.in_penalty_box[i]
    }

    pub open spec fn current_name(self) -> Seq<char> {
        self.players[self.current_player as int]
    }

    pub open spec fn current_place(self) -> usize {
        self.places[self.current_player as int]
    }

    pub open spec fn current_purse(self) -> usize {
        self.purses[self.current_player as int]
    }

    pub open spec fn current_in_penalty_box(self) -> bool {
        self.in_penalty_box[self.current_player as int]
    }

    /// The same state with one more notification.
    pub open spec fn with_event(self, e: GameEvent) -> GameView {
        GameView { events: self.events.push(e), ..self }
    }

    /// A new player sits down; the seat after theirs is cleared.
    pub open spec fn after_add(self, name: Seq<char>) -> GameView {
        let seat = self.players.len() + 1;
        GameView {
            players: self.players.push(name),
            places: self.places.update(seat as int, 0),
            purses: self.purses.update(seat as int, 0),
            in_penalty_box: self.in_penalty_box.update(seat as int, false),
            events: self.events.push(GameEvent::UserAdded(name)),
            ..self
        }
    }

    /// The player after the current one, going round the table.
    pub open spec fn next_player(self) -> usize {
        if self.current_player + 1 == self.players.len() {
            0
        } else {
            (self.current_player + 1) as usize
        }
    }

    /// The square `steps` squares ahead of the current player's, round the board.
    pub open spec fn place_ahead(self, steps: nat) -> usize {
        ((self.current_place() + steps) % (NUM_PLACES as int)) as usize
    }

    /// The current player moves `steps` squares ahead.
    pub open spec fn after_move(self, steps: nat) -> GameView {
        let place = self.place_ahead(steps);
        GameView {
            places: self.places.update(self.current_player as int, place),
            events: self.events.push(GameEvent::Moved(self.current_name(), place)),
            ..self
        }
    }

    /// Whether the current player, rolling `roll`, stays in the penalty box.
    pub open spec fn stays_in_penalty_box(self, roll: Dice) -> bool {
        self.current_in_penalty_box() && roll.spec_value() % 2 == 0
    }

    /// The state after rolling, up to the question: a player in the penalty
    /// box leaves it on an odd roll and stays on an even one (and then does not
    /// move); everyone else moves by the roll.
    pub open spec fn after_roll_start(self, roll: Dice) -> GameView {
        let name = self.current_name();
        let rolled = self.with_event(GameEvent::Rolled(name, roll));
        if self.current_in_penalty_box() {
            if roll.spec_value() % 2 == 1 {
                let left = GameView {
                    in_penalty_box: rolled.in_penalty_box.update(self.current_player as int, false),
                    getting_out_of_penalty_box: true,
                    events: rolled.events.push(GameEvent::LeftPenaltyBox(name)),
                    ..rolled
                };
                left.after_move(roll.spec_value())
            } else {
                GameView {
                    getting_out_of_penalty_box: false,
                    events: rolled.events.push(GameEvent::StayedInPenaltyBox(name)),
                    ..rolled
                }
            }
        } else {
            rolled.after_move(roll.spec_value())
        }
    }

    /// The category of the current player's square.
    pub open spec fn current_category(self) -> Category {
        category_for_place(self.current_place() as int)
    }

    /// The category of the current player's square is announced, and a card
    /// of it is drawn from the deck, which gives `answer`: the answer the card
    /// gets, or `None` when there was no card.
    pub open spec fn after_ask(self, answer: Option<bool>) -> GameView {
        GameView {
            events: self.events.push(GameEvent::AskedQuestion(self.current_category())),
            drawn: self.drawn.push((self.current_category(), answer)),
            ..self
        }
    }

    /// The turn passes to the next player.
    pub open spec fn after_change_player(self) -> GameView {
        GameView { current_player: self.next_player(), ..self }
    }

    /// A correct answer earns the current player a coin.
    pub open spec fn after_win_point(self) -> GameView {
        let purse = (self.current_purse() + 1) as usize;
        GameView {
            purses: self.purses.update(self.current_player as int, purse),
            events: self.events.push(GameEvent::WonPoint(self.current_name(), purse)),
            ..self
        }
    }

    /// A wrong answer sends the current player to the penalty box.
    pub open spec fn after_go_to_penalty_box(self) -> GameView {
        GameView {
            in_penalty_box: self.in_penalty_box.update(self.current_player as int, true),
            events: self.events.push(GameEvent::WentToPenaltyBox(self.current_name())),
            ..self
        }
    }

    /// What follows a question: with no card the game stops where it is; a
    /// correct answer earns a coin, and the game goes on unless that coin is the
    /// winning one; a wrong answer leads to the penalty box. After an answer the
    /// turn passes on.
    pub open spec fn after_answer(self, result: AskQuestionResult) -> (GameView, bool) {
        if !result.game_must_go_on {
            (self, false)
        } else if result.answered_correctly {
            let won = self.after_win_point();
            (won.after_change_player(), won.current_purse() != TARGET_SCORE)
        } else {
            (self.after_go_to_penalty_box().after_change_player(), true)
        }
    }

    /// A whole turn for roll `roll`, where the draw of the question (if one
    /// is asked) gives `answer`.
    pub open spec fn after_roll(self, roll: Dice, answer: Option<bool>) -> (GameView, bool) {
        let started = self.after_roll_start(roll);
        if self.stays_in_penalty_box(roll) {
            (started, true)
        } else {
            started.after_ask(answer).after_answer(question_outcome(answer))
        }
    }
}

/// A game of trivia at one table, drawing its questions from a deck `D`
/// and telling an observer `O` what happens.
pub struct Game<D: Deck, O: GameObserver> {
    players: Vec<String>,
    places: [usize; MAX_PLAYERS],
    purses: [usize; MAX_PLAYERS],
    in_penaltybox: [bool; MAX_PLAYERS],
    current_player: usize,
    is_getting_out_of_penaltybox: bool,
    categories: Vec<Category>,
    num_places: usize,
    deck: D,
    observer: O,
}

impl<D: Deck, O: GameObserver> View for Game<D, O> {
    type V = GameView;

    closed spec fn view(&self) -> GameView {
        GameView {
            players: self.players@.map_values(|s: String| s@),
            places: self.places@,
            purses: self.purses@,
            in_penalty_box: self.in_penaltybox@,
            current_player: self.current_player,
            getting_out_of_penalty_box: self.is_getting_out_of_penaltybox,
            events: self.observer.told(),
            drawn: self.deck.drawn(),
        }
    }
}

impl<D: Deck, O: GameObserver> Game<D, O> {
    /// The game's well-formedness: its view is valid and the board is the
    /// categories repeated in order.
    pub closed spec fn wf(&self) -> bool {
        &&& self@.valid()
        &&& self.categories@ == all_categories()
        &&& self.num_places == NUM_PLACES
    }

    /// A well-formed game's view is valid.
    pub proof fn lemma_wf_valid(&self)
        requires
            self.wf(),
        ensures
            self@.valid(),
    {
    }

    /// A game with no players, drawing from `deck` and telling `observer`.
    pub fn new(deck: D, observer: O) -> (g: Game<D, O>)
        ensures
            g.wf(),
            g@ == initial_view(observer.told(), deck.drawn()),
    {
        let ghost told = observer.told();
        let ghost drawn = deck.drawn();
        let g = Game {
            players: Vec::new(),
            places: [0, 0, 0, 0, 0, 0],
            purses: [0, 0, 0, 0, 0, 0],
            in_penaltybox: [false, false, false, false, false, false],
            current_player: 0,
            is_getting_out_of_penaltybox: false,
            categories: Category::all(),
            num_places: CATEGORY_COUNT * NUM_PLACES_PER_CATEGORY,
            deck: deck,
            observer: observer,
        };
        assert(g@.players =~= Seq::<Seq<char>>::empty());
        assert(g@.places =~= initial_view(told, drawn).places);
        assert(g@.purses =~= initial_view(told, drawn).purses);
        assert(g@.in_penalty_box =~= initial_view(told, drawn).in_penalty_box);
        assert(g@ == initial_view(told, drawn));
        g
    }

    /// Seats a new player, tells the observer, and clears the seat after
    /// theirs. The seat after the sixth player's does not exist, so a table
    /// holds at most five.
    pub fn add(&mut self, player_name: String)
        requires
            old(self).wf(),
            old(self)@.players.len() + 1 < MAX_PLAYERS,
        ensures
            final(self).wf(),
            final(self)@ == old(self)@.after_add(player_name@),
    {
        let ghost before = self@;
        let l_player = player_name.clone();
        self.players.push(player_name);
        let seat = self.num_players();
        self.places[seat] = 0;
        self.purses[seat] = 0;
        self.in_penaltybox[seat] = false;
        self.observer.on_user_added(l_player.as_str());
        assert(self@.players =~= before.players.push(l_player@));
        assert(self@ == before.after_add(l_player@));
    }

    /// The number of players at the table.
    pub fn num_players(&self) -> (n: usize)
        ensures
            n == self@.players.len(),
    {
        self.players.len()
    }

    /// The current player leaves the penalty box.
    fn leave_penalty_box(&mut self)
        requires
            old(self).wf(),
            old(self)@.players.len() > 0,
        ensures
            final(self).wf(),
            final(self)@ == (GameView {
                in_penalty_box: old(self)@.in_penalty_box.update(old(self)@.current_player as int, false),
                getting_out_of_penalty_box: true,
                events: old(self)@.events.push(GameEvent::LeftPenaltyBox(old(self)@.current_name())),
                ..old(self)@
            }),
    {
        let cur = self.current_player;
        self.is_getting_out_of_penaltybox = true;
        self.in_penaltybox[cur] = false;
        self.observer.on_leave_penalty_box(self.players[cur].as_str());
    }

    /// The current player stays in the penalty box.
    fn stay_in_penalty_box(&mut self)
        requires
            old(self).wf(),
            old(self)@.players.len() > 0,
        ensures
            final(self).wf(),
            final(self)@ == (GameView {
                getting_out_of_penalty_box: false,
                events: old(self)@.events.push(GameEvent::StayedInPenaltyBox(old(self)@.current_name())),
                ..old(self)@
            }),
    {
        let cur = self.current_player;
        self.observer.on_stay_in_penalty_box(self.players[cur].as_str());
        self.is_getting_out_of_penaltybox = false;
    }

    /// The current player goes to the penalty box.
    fn go_to_penalty_box(&mut self)
        requires
            old(self).wf(),
            old(self)@.players.len() > 0,
        ensures
            final(self).wf(),
            final(self)@ == old(self)@.after_go_to_penalty_box(),
    {
        let cur = self.current_player;
        self.observer.on_go_to_penalty_box(self.players[cur].as_str());
        self.in_penaltybox[cur] = true;
    }

    /// The coins of the player whose turn it is.
    pub fn current_purse(&self) -> (p: usize)
        requires
            self.wf(),
        ensures
            p == self@.current_purse(),
    {
        self.purses[self.current_player]
    }

    /// Whether the current player has the winning number of coins.
    fn did_player_win(&self) -> (b: bool)
        requires
            self.wf(),
        ensures
            b == (self@.current_purse() == TARGET_SCORE),
    {
        self.purses[self.current_player] == TARGET_SCORE
    }

    /// The category of the current player's square.
    fn current_category(&self) -> (c: Category)
        requires
            self.wf(),
            self@.players.len() > 0,
        ensures
            c == category_for_place(self@.current_place() as int),
    {
        self.categories[self.places[self.current_player] % self.categories.len()].clone()
    }

    /// The turn passes to the next player round the table.
    fn change_player(&mut self)
        requires
            old(self).wf(),
            old(self)@.players.len() > 0,
        ensures
            final(self).wf(),
            final(self)@ == old(self)@.after_change_player(),
    {
        self.current_player = self.current_player + 1;
        if self.current_player == self.players.len() {
            self.current_player = 0;
        }
    }

    /// The current player earns a coin.
    fn win_one_point(&mut self)
        requires
            old(self).wf(),
            old(self)@.players.len() > 0,
            old(self)@.current_purse() < usize::MAX,
        ensures
            final(self).wf(),
            final(self)@ == old(self)@.after_win_point(),
    {
        let cur = self.current_player;
        let purse = self.purses[cur] + 1;
        self.purses[cur] = purse;
        self.observer.on_win_point(self.players[cur].as_str(), purse);
    }

    /// The current player moves `roll` squares ahead, round the board.
    fn move_forward(&mut self, roll: usize)
        requires
            old(self).wf(),
            old(self)@.players.len() > 0,
            roll <= NUM_PLACES,
        ensures
            final(self).wf(),
            final(self)@ == old(self)@.after_move(roll as nat),
    {
        let cur = self.current_player;
        let mut place = self.places[cur] + roll;
        if place > self.num_places - 1 {
            place = place - self.num_places;
        }
        self.places[cur] = place;
        self.observer.on_move(self.players[cur].as_str(), place);
    }

    /// A wrong answer: the current player goes to the penalty box and the turn
    /// passes on; the game goes on.
    fn wrong_answer(&mut self) -> (r: bool)
        requires
            old(self).wf(),
            old(self)@.players.len() > 0,
        ensures
            final(self).wf(),
            final(self)@ == old(self)@.after_go_to_penalty_box().after_change_player(),
            r,
    {
        self.go_to_penalty_box();
        self.change_player();
        true
    }

    /// A correct answer: the current player earns a coin and the turn passes
    /// on; the game goes on unless that coin won it.
    fn correct_answer(&mut self) -> (r: bool)
        requires
            old(self).wf(),
            old(self)@.players.len() > 0,
            old(self)@.current_purse() < usize::MAX,
        ensures
            final(self).wf(),
            final(self)@ == old(self)@.after_win_point().after_change_player(),
            r == (old(self)@.after_win_point().current_purse() != TARGET_SCORE),
    {
        self.win_one_point();
        let game_must_go_on: bool = !self.did_player_win();
        self.change_player();
        game_must_go_on
    }

    /// Announces the category of the current player's square and draws one
    /// card of it from the deck. With no card left the game cannot go on;
    /// otherwise the card is asked and its answer is the outcome. What the
    /// deck gives is the deck's: it is the last entry of its record.
    fn ask_question(&mut self) -> (r: AskQuestionResult)
        requires
            old(self).wf(),
            old(self)@.players.len() > 0,
        ensures
            final(self).wf(),
            final(self)@ == old(self)@.after_ask(final(self)@.drawn.last().1),
            r == question_outcome(final(self)@.drawn.last().1),
    {
        let category = self.current_category();
        self.observer.on_ask_question(category.clone());
        let answer = match self.deck.take_card(category) {
            Some(card) => Some(card.ask_question()),
            None => None,
        };
        outcome_of(answer)
    }

    /// Settles the question just asked, given what asking it gave: with no
    /// card the game stops; a correct answer earns the current player a coin,
    /// and the game stops if that coin wins; a wrong answer sends the player to
    /// the penalty box. After an answer the turn passes to the next player.
    /// Returns whether the game goes on.
    pub fn resolve_answer(&mut self, result: AskQuestionResult) -> (r: bool)
        requires
            old(self).wf(),
            old(self)@.players.len() > 0,
            old(self)@.current_purse() < usize::MAX,
        ensures
            final(self).wf(),
            (final(self)@, r) == old(self)@.after_answer(result),
    {
        if !result.game_must_go_on {
            return false;
        }
        if result.answered_correctly {
            self.correct_answer()
        } else {
            self.wrong_answer()
        }
    }

    /// Plays the current player's turn with the roll `roll`, and returns
    /// whether the game goes on. A player in the penalty box gets out on an odd
    /// roll and otherwise stays there, keeps the turn and does not move; anyone
    /// else moves by the roll round the board and answers a question of the
    /// category of the square reached, drawn from the deck.
    pub fn roll(&mut self, roll: Dice) -> (r: bool)
        requires
            old(self).wf(),
            old(self)@.players.len() > 0,
            old(self)@.current_purse() < usize::MAX,
        ensures
            final(self).wf(),
            old(self)@.stays_in_penalty_box(roll) ==> final(self)@ == old(self)@.after_roll_start(
                roll,
            ) && r,
            !old(self)@.stays_in_penalty_box(roll) ==> (final(self)@, r) == old(self)@.after_roll(
                roll,
                final(self)@.drawn.last().1,
            ),
    {
        let ghost before = self@;
        let cur = self.current_player;
        self.observer.on_roll(self.players[cur].as_str(), roll.clone());
        if self.in_penaltybox[cur] {
            if roll.is_odd() {
                self.leave_penalty_box();
            } else {
                self.stay_in_penalty_box();
                assert(self@ == before.after_roll_start(roll));
                return true;
            }
        }
        self.move_forward(roll.value());
        assert(self@ == before.after_roll_start(roll));
        let result = self.ask_question();
        let ghost answer = self@.drawn.last().1;
        let r = self.resolve_answer(result);
        assert(self@.drawn.last().1 == answer);
        assert((self@, r) == before.after_roll(roll, answer));
        r
    }
}

} // verus!
