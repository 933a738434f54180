# trivia

A trivia board game with verified rules. Players take turns rolling a die,
move round a board of twelve squares whose categories repeat (Pop, Science,
Sports, Rock), and answer a question of the category of the square they reach.
A correct answer earns a coin, six coins win; a wrong answer sends the player
to the penalty box, which an odd roll leaves.

- `src/` — the library, verified with Verus: `dice`, `category`, `text`
  (decimal rendering), `observer` (the deck, card and observer traits a user
  implements), `game` (the rules, specified over `GameView`), `dummy_deck`
  (the numbered stand-in questions) and `laws` (properties across turns).
- `app/` — the command-line game: printing observer, printing cards, random rolls.
- `tests/` — scenario tests run against the compiled library.
