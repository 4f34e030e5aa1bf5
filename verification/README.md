# craiyon-bot

The logic of a Telegram bot with many small commands (image generation,
media downloads, translations, chat models, dictionary lookups and more),
written in Verus: what each command replies, when it refuses, how it waits
on slow services, and how requests are rate limited, all stated in contracts
and proved.

Layout:

- `src/` – the verified library.
  - `commands/` – one module per command: its names, description and rate
    limit, and the functions that decide and build its replies.
  - `not_commands/` – answers to messages that are not commands.
  - `rate_limit.rs` – the per-user rate limiter and its laws.
  - `parsed_command.rs` – reading a command out of a message.
  - `text.rs`, `message_entities.rs` – text helpers and styled reply pieces.
  - `links.rs`, `encoding.rs`, `random.rs`, `tally.rs`, `images.rs` – the
    calls into the `url`, `base64`, `rand`, `counter` and `image` crates,
    each behind a contract.
  - `craiyon.rs`, `mathjs.rs`, `openai.rs`, `passwordpurgatory.rs`,
    `logchamp.rs` – service clients' decisions and the logger's rules.
- `tests/` – tests on concrete values.
- `app/` – the program around the library: the logger, the command list,
  and the floating-point parts of currency conversion.
