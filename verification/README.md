# zotty

The verified core of Zotty, a Discord bot that awards experience for
messages, shows rank and leaderboard cards, and serves a small web dashboard.

- `src/` is the library, verified with Verus: command-argument parsing
  (`commands`), integer rendering and parsing and placeholder replacement
  (`text`), the levelling rules (`ranks`, `levels`), leaderboard paging
  (`ranks::leaderboard`), level-up messages (`ranks::level_up`), card colours
  and texts (`ranks::colour`, `ranks::rank_card`, `levels::rank_card`), the
  help pages (`help`), and the configuration, guild options and dashboard
  rules (`zotty`).
- `app/` is the bot itself: Discord and HTTP I/O, the SQLite store, and the
  cairo drawing of the cards.
- `tests/` exercises the library on concrete values.
