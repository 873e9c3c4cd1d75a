# tg-ai-bot-rust

A Telegram assistant bot: it answers questions in one configured group (or in
any group when none is configured), serves private chats only to administrators
and authorized users, searches the web for each question, asks a pool of
language-model providers with fallback, and streams the answer by editing a
placeholder message.

## Layout

- `src/` — the bot's decision logic, written in Verus and proved against its
  contracts:
  - `text.rs` — character-level string operations (trim, prefix stripping,
    substring search, replacement) specified over `Seq<char>`;
  - `config.rs` — settings from environment values, with their defaults;
  - `search.rs` — the search URL and the results drawn from a search reply;
  - `prompt.rs` — the prompt built from a question and its search results;
  - `llm_pool.rs` — provider fallback as a step function, with its laws;
  - `webhook.rs` — what an update activates, group and private-chat rules;
  - `reply.rs` — the steps from search to reply, API endpoints, and the
    streaming of the answer by edits.
- `app/` — the HTTP server, the Telegram, database, search and model calls,
  and the async traits of the adapters; it runs the steps that `src/` decides.
- `tests/` — tests of the library on concrete values.
