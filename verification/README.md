# wimble

Lets a Twitch chat (and standard input) drive a web browser through
chromedriver. This crate is the verified core; `app/` is the program around it.

- `src/command_parser.rs` — the chat command language: what a message asks
  for, and how the browser's answers decide it.
- `src/browser.rs` — the browser worker's decisions: what each command does
  under the settings, and the steps of reading a configured page element.
- `src/config.rs` — the settings and how they are read out of a
  `config::Config` repository.
- `src/streambot.rs`, `src/stdin_source.rs` — the two command sources' decisions.
- `src/table.rs`, `src/text.rs` — keyed tables and text operations they share.
- `src/properties.rs` — properties of the command language and the browser
  worker that span these modules.
- `src/config_properties.rs` — what loading the settings depends on.
- `app/` — the WebDriver session, the Twitch client, standard input, and the
  loops that carry out what the library decides.
