# doxing-emulator

A Telegram bot that answers `/dox` commands, forwarded messages, inline
queries and guest mentions with a playful "dox report" of a user or chat.

- `src/` is the verified library: argument and command parsing
  (`doxee_resolution`, `commands`, `text`), the resolver that decides whom a
  request doxes one Telegram lookup at a time (`resolver`), the rules it
  follows stated as nested lookups (`outcome`), the report and its HTML
  rendering (`dox_impl`), the reply texts (`messages`, `replies`, `inline`,
  `guest`, `non_command`) and the proved promises of the bot (`laws`).
- `app/` is the program: configuration, the update loop, the Telegram calls
  the resolver asks for, and conversion of Telegram's types.

Run it with `doxing-emulator path/to/config.toml`; the file holds `token`
and an optional `proxy`.
