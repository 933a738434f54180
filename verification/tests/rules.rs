use std::cell::RefCell;
use std::rc::Rc;
use trivia::game::{outcome_of, AskQuestionResult};
use trivia::{decimal_string, Card, Category, Deck, Dice, DummyDeck, Game, GameObserver};
use trivia::dummy_deck::question_for;

struct Recorder {
    log: Rc<RefCell<Vec<String>>>,
}

impl GameObserver for Recorder {
    fn on_user_added(&mut self, new_player_name: &str) {
        self.log.borrow_mut().push(format!("add {}", new_player_name));
    }
    fn on_roll(&mut self, player: &str, roll: Dice) {
        self.log.borrow_mut().push(format!("roll {} {}", player, roll.to_string()));
    }
    fn on_move(&mut self, player: &str, new_position: usize) {
        self.log.borrow_mut().push(format!("move {} {}", player, new_position));
    }
    fn on_ask_question(&mut self, category: Category) {
        self.log.borrow_mut().push(format!("ask {}", category.to_string()));
    }
    fn on_win_point(&mut self, player: &str, new_score: usize) {
        self.log.borrow_mut().push(format!("win {} {}", player, new_score));
    }
    fn on_go_to_penalty_box(&mut self, player: &str) {
        self.log.borrow_mut().push(format!("box {}", player));
    }
    fn on_leave_penalty_box(&mut self, player: &str) {
        self.log.borrow_mut().push(format!("leave {}", player));
    }
    fn on_stay_in_penalty_box(&mut self, player: &str) {
        self.log.borrow_mut().push(format!("stay {}", player));
    }
}

struct Answer(bool);

impl Card for Answer {
    fn ask_question(&self) -> bool {
        self.0
    }
}

/// Hands out the scripted answers in order, then runs out of cards.
struct Scripted {
    answers: Vec<bool>,
    next: usize,
}

impl Deck for Scripted {
    fn take_card(&mut self, _category: Category) -> Option<Box<dyn Card>> {
        if self.next >= self.answers.len() {
            return None;
        }
        let a = self.answers[self.next];
        self.next += 1;
        Some(Box::new(Answer(a)))
    }
}

fn game_with(
    answers: Vec<bool>,
    names: &[&str],
) -> (Game<Box<Scripted>, Box<Recorder>>, Rc<RefCell<Vec<String>>>) {
    let log = Rc::new(RefCell::new(Vec::new()));
    let mut game = Game::new(
        Box::new(Scripted { answers, next: 0 }),
        Box::new(Recorder { log: log.clone() }),
    );
    for n in names {
        game.add(n.to_string());
    }
    log.borrow_mut().clear();
    (game, log)
}

fn taken(log: &Rc<RefCell<Vec<String>>>) -> Vec<String> {
    let v = log.borrow().clone();
    log.borrow_mut().clear();
    v
}

#[test]
fn decimal_string_renders_numbers() {
    assert_eq!(decimal_string(0), "0");
    assert_eq!(decimal_string(9), "9");
    assert_eq!(decimal_string(10), "10");
    assert_eq!(decimal_string(49), "49");
    assert_eq!(decimal_string(12345), "12345");
    assert_eq!(decimal_string(usize::MAX), usize::MAX.to_string());
}

#[test]
fn dice_faces_are_written_as_numbers() {
    let faces = [Dice::One, Dice::Two, Dice::Three, Dice::Four, Dice::Five, Dice::Six];
    let texts = ["1", "2", "3", "4", "5", "6"];
    for (d, t) in faces.iter().zip(texts.iter()) {
        assert_eq!(d.to_string(), *t);
    }
}

#[test]
fn dice_from_usize_and_value_round_trip() {
    for v in 1..=6usize {
        let d = Dice::from_usize(v);
        assert_eq!(d.value(), v);
        assert_eq!(usize::from(&d), v);
        assert_eq!(d.is_odd(), v % 2 == 1);
    }
}

#[test]
fn dice_try_from_value_refuses_values_off_the_die() {
    assert_eq!(Dice::try_from_value(0), None);
    assert_eq!(Dice::try_from_value(7), None);
    assert_eq!(Dice::try_from_value(-3), None);
    assert_eq!(Dice::try_from_value(3), Some(Dice::Three));
    assert_eq!(Dice::try_from_value(6), Some(Dice::Six));
}

#[test]
fn categories_have_names_and_order() {
    assert_eq!(Category::Pop.to_string(), "Pop");
    assert_eq!(Category::Science.to_string(), "Science");
    assert_eq!(Category::Sports.to_string(), "Sports");
    assert_eq!(Category::Rock.to_string(), "Rock");
    assert_eq!(
        Category::all(),
        vec![Category::Pop, Category::Science, Category::Sports, Category::Rock]
    );
    assert_eq!(Category::Sports.ordinal(), 2);
}

#[test]
fn dummy_questions_are_numbered() {
    assert_eq!(question_for(Category::Rock, 7), "Rock Question 7");
    assert_eq!(question_for(Category::Pop, 0), "Pop Question 0");
    assert_eq!(question_for(Category::Science, 49), "Science Question 49");
}

#[test]
fn dummy_deck_draws_highest_number_first_per_category() {
    let mut deck = DummyDeck::default();
    assert_eq!(deck.take_question(Category::Pop).unwrap(), "Pop Question 49");
    assert_eq!(deck.take_question(Category::Pop).unwrap(), "Pop Question 48");
    assert_eq!(deck.take_question(Category::Science).unwrap(), "Science Question 49");
    let mut count = 2;
    while deck.take_question(Category::Pop).is_some() {
        count += 1;
    }
    assert_eq!(count, 50);
    assert!(deck.take_question(Category::Pop).is_none());
    assert_eq!(deck.take_question(Category::Rock).unwrap(), "Rock Question 49");
}

#[test]
fn add_tells_observer_and_counts_players() {
    let log = Rc::new(RefCell::new(Vec::new()));
    let mut game = Game::new(
        Box::new(Scripted { answers: vec![true], next: 0 }),
        Box::new(Recorder { log: log.clone() }),
    );
    assert_eq!(game.num_players(), 0);
    game.add("Ann".to_string());
    game.add("Bo".to_string());
    assert_eq!(game.num_players(), 2);
    assert_eq!(taken(&log), vec!["add Ann", "add Bo"]);
}

#[test]
fn correct_answer_turn_reports_in_order() {
    let (mut game, log) = game_with(vec![true], &["Ann"]);
    assert!(game.roll(Dice::Four));
    assert_eq!(taken(&log), vec!["roll Ann 4", "move Ann 4", "ask Pop", "win Ann 1"]);
    assert_eq!(game.current_purse(), 1);
}

#[test]
fn moves_wrap_round_the_board() {
    let (mut game, log) = game_with(vec![true; 5], &["Ann"]);
    game.roll(Dice::Six);
    game.roll(Dice::Five);
    assert_eq!(taken(&log)[5..8].to_vec(), vec!["move Ann 11", "ask Rock", "win Ann 2"]);
    game.roll(Dice::Three);
    assert_eq!(taken(&log)[1..3].to_vec(), vec!["move Ann 2", "ask Sports"]);
}

#[test]
fn turns_go_round_the_table() {
    let (mut game, log) = game_with(vec![true; 5], &["Ann", "Bo", "Cy"]);
    for _ in 0..4 {
        game.roll(Dice::One);
    }
    let rolls: Vec<String> = taken(&log).into_iter().filter(|e| e.starts_with("roll")).collect();
    assert_eq!(rolls, vec!["roll Ann 1", "roll Bo 1", "roll Cy 1", "roll Ann 1"]);
}

#[test]
fn wrong_answer_goes_to_penalty_box_and_even_roll_stays() {
    let (mut game, log) = game_with(vec![false, true], &["Ann"]);
    assert!(game.roll(Dice::Two));
    assert_eq!(taken(&log), vec!["roll Ann 2", "move Ann 2", "ask Sports", "box Ann"]);
    assert!(game.roll(Dice::Four));
    assert_eq!(taken(&log), vec!["roll Ann 4", "stay Ann"]);
    assert!(game.roll(Dice::Three));
    assert_eq!(
        taken(&log),
        vec!["roll Ann 3", "leave Ann", "move Ann 5", "ask Science", "win Ann 1"]
    );
}

#[test]
fn staying_in_penalty_box_keeps_the_turn() {
    let (mut game, log) = game_with(vec![false, true], &["Ann", "Bo"]);
    game.roll(Dice::One);
    game.roll(Dice::Two);
    game.roll(Dice::Two);
    game.roll(Dice::Two);
    let rolls: Vec<String> = taken(&log).into_iter().filter(|e| e.starts_with("roll")).collect();
    assert_eq!(rolls, vec!["roll Ann 1", "roll Bo 2", "roll Ann 2", "roll Ann 2"]);
}

#[test]
fn game_stops_when_deck_is_empty_and_turn_does_not_pass() {
    let (mut game, log) = game_with(vec![], &["Ann", "Bo"]);
    assert!(!game.roll(Dice::One));
    assert_eq!(taken(&log), vec!["roll Ann 1", "move Ann 1", "ask Science"]);
    assert!(!game.roll(Dice::One));
    assert_eq!(taken(&log)[0], "roll Ann 1");
}

#[test]
fn game_stops_at_six_coins() {
    let (mut game, _log) = game_with(vec![true; 10], &["Ann"]);
    for _ in 0..5 {
        assert!(game.roll(Dice::Two));
    }
    assert_eq!(game.current_purse(), 5);
    assert!(!game.roll(Dice::Two));
    assert_eq!(game.current_purse(), 6);
}

#[test]
fn resolve_answer_settles_each_outcome() {
    let (mut game, log) = game_with(vec![], &["Ann", "Bo"]);
    let none = AskQuestionResult { game_must_go_on: false, answered_correctly: false };
    assert!(!game.resolve_answer(none));
    assert!(taken(&log).is_empty());
    let right = AskQuestionResult { game_must_go_on: true, answered_correctly: true };
    assert!(game.resolve_answer(right));
    assert_eq!(taken(&log), vec!["win Ann 1"]);
    let wrong = AskQuestionResult { game_must_go_on: true, answered_correctly: false };
    assert!(game.resolve_answer(wrong));
    assert_eq!(taken(&log), vec!["box Bo"]);
    assert_eq!(game.current_purse(), 1);
}

#[test]
fn coins_only_grow_for_the_player_who_answers() {
    let (mut game, log) = game_with(vec![true, false, true], &["Ann", "Bo"]);
    game.roll(Dice::One);
    game.roll(Dice::One);
    game.roll(Dice::One);
    let wins: Vec<String> = taken(&log).into_iter().filter(|e| e.starts_with("win")).collect();
    assert_eq!(wins, vec!["win Ann 1", "win Ann 2"]);
}

#[test]
fn outcome_of_reads_the_draw() {
    assert_eq!(
        outcome_of(Some(true)),
        AskQuestionResult { game_must_go_on: true, answered_correctly: true }
    );
    assert_eq!(
        outcome_of(Some(false)),
        AskQuestionResult { game_must_go_on: true, answered_correctly: false }
    );
    assert_eq!(
        outcome_of(None),
        AskQuestionResult { game_must_go_on: false, answered_correctly: false }
    );
}

/// Records the categories asked for, and always hands out a card with the same answer.
struct Counting {
    asked: Rc<RefCell<Vec<Category>>>,
    answer: bool,
}

impl Deck for Counting {
    fn take_card(&mut self, category: Category) -> Option<Box<dyn Card>> {
        self.asked.borrow_mut().push(category);
        Some(Box::new(Answer(self.answer)))
    }
}

#[test]
fn deck_is_asked_once_per_question_for_the_square_category() {
    let asked = Rc::new(RefCell::new(Vec::new()));
    let log = Rc::new(RefCell::new(Vec::new()));
    let mut game = Game::new(
        Box::new(Counting { asked: asked.clone(), answer: true }),
        Box::new(Recorder { log: log.clone() }),
    );
    game.add("Ann".to_string());
    game.add("Bo".to_string());
    assert!(asked.borrow().is_empty());
    game.roll(Dice::One);
    game.roll(Dice::Two);
    game.roll(Dice::Five);
    assert_eq!(
        *asked.borrow(),
        vec![Category::Science, Category::Sports, Category::Sports]
    );
}

#[test]
fn staying_in_penalty_box_draws_no_card() {
    let asked = Rc::new(RefCell::new(Vec::new()));
    let log = Rc::new(RefCell::new(Vec::new()));
    let mut game = Game::new(
        Box::new(Counting { asked: asked.clone(), answer: false }),
        Box::new(Recorder { log: log.clone() }),
    );
    game.add("Ann".to_string());
    assert!(game.roll(Dice::One));
    assert_eq!(*asked.borrow(), vec![Category::Science]);
    assert!(game.roll(Dice::Two));
    assert_eq!(log.borrow().last().unwrap(), "stay Ann");
    assert_eq!(asked.borrow().len(), 1);
}
