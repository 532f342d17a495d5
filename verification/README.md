# neutrobot

A Discord bot's logic as a verified library, and the bot around it.

- `src/` is the library, checked by Verus. Each module holds the decisions of one part of the
  bot, with contracts that give its exact results:
  - `text`: character-level text operations.
  - `store`: a string-keyed map.
  - `settings`: per-server settings.
  - `i18n`: message tables.
  - `terminal`: terminal commands and the flag panel.
  - `events`: media approval, starboard, reaction roles, logs, mentions and sticky messages.
  - `ai`: model choice, prompts, tokens, replies.
  - `moderation`, `utility`, `bot`, `infra`: the remaining command arguments, access checks
    and the health endpoint.
  - `laws`: properties that hold across these operations.
- `tests/` runs the library on concrete values.
- `app/` is the bot itself: Discord and HTTP I/O, JSON files, and the commands that call the
  library.
