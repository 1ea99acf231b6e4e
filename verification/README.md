# wcp: World Cup score-prediction polls

The bookkeeping of a Discord bot that posts a poll card per football match,
lets each user compose a score with two menus and lock it in before kickoff,
and awards points once the final score is known (3 for the exact score, 1 for
the right outcome).

- `src/` is the verified library (Verus):
  - `text.rs`: decimal rendering and `str::parse`-style reading of unsigned integers;
  - `types.rs`: the state (`Data`) and its abstract view (`PollState`);
  - `interactions.rs`: what a click or a menu selection on a card does;
  - `scoring.rs`: closing a poll and awarding points;
  - `commands.rs`: the slash commands' content (poll card, information cards);
  - `clock.rs`: the calls into chrono (reading a kickoff, reading the clock);
  - `laws.rs`: properties proved across operations.
- `tests/` runs the library on concrete values.
- `app/` is the bot itself: poise/serenity I/O around the library.
