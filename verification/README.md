# hangitbot

A Telegram bot for hanging your boss up (on a lamp post, in words).

- `src/` is the verified library: the texts the bot answers with, how it
  picks and fills them, how it recognises its own inline messages in a
  group, and the decisions behind `/hangit`, `/top` and the inline menu.
- `app/` is the program around it: command line, Telegram connection,
  dispatching of updates and the statistics database.
- `tests/` runs the library on concrete values.
