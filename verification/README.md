# informator

The core of a Telegram announcement bot, verified with Verus.

- `src/storage`: the users table as rows (`Storage`), with the rules for
  registering users and making admins, and the laws those rules keep
  (`storage/laws.rs`).
- `src/database`: the turso-backed database's builder and statements, and
  reading users and messages from its rows.
- `src/text`: decimal numbers, trimming, pattern removal and comma separated
  lists, proved against short specifications.
- `src/functions`: the replies to `/start`, `/add` and `/sync`.
- `app/`: the bot itself: command line, SQLite through diesel, the Telegram
  dispatcher. It reads the table, lets the library decide, writes the table
  back and sends the reply.

`Cargo.toml` names `takecell` though no code here uses it: teloxide-core
depends on it, and its newest release needs a newer rustc than the one this
project is built with, so it is held below that release.
