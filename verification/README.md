# rusty

A Discord bot for music playback, AI chat, web search, coin prices and small
utilities. The crate is split in two:

- `src/` — the verified library (Verus). It holds the bot's state and rules:
  the per-guild track queues with their history and settings (`queue`, `music`,
  `flags`, `autoplay`), the player message and its buttons (`player`,
  `controls`), button routing and the multi-step flows (`handlers`, `flows`),
  link recognition and metadata for YouTube and Spotify (`youtube`, `spotify`,
  `audio`, `serp`), durations and timers (`duration`, `timer`, `parse`), the
  track cache (`cache`), texts and helpers for AI, search, images, coins and
  admin commands (`ai`, `brave`, `image`, `coingecko`, `coin_ids`, `openai`,
  `admin`). Every public function carries a contract; the laws of the queue, the
  answer chunking and the coin autocompletion are proof functions.
- `app/` — the program around it: Discord commands and events (poise,
  serenity), voice playback (songbird), processes (`yt-dlp`), HTTP requests and
  the JSON they exchange.

`tests/` exercises the library from outside.
