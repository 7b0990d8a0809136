# tg_hist_bot

A Telegram bot that stores every text message of a chat in a Redis stream
and, on `/history`, posts a message that shows one stored entry with
`Prev`/`Next` buttons to page through the stream.

- `src/` is the verified library (Verus): storage keys (`keys`), the Redis
  commands of the store (`store`), reading updates and stream replies
  (`parser`), the history message (`history`), button callback data
  (`prev_next`), the per-update state machine (`handler`) and the polling
  decisions (`polling`).
- `app/` is the program around it: environment, HTTP and Redis I/O, JSON,
  and the loops that perform the requests the library asks for.
- `tests/` exercise the library on concrete values.
