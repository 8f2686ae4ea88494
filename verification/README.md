# llm-cascade

Resilient, cascading LLM inference across several providers (OpenAI and
compatible endpoints, Anthropic, Google Gemini, Ollama): the entries of a
cascade are tried in order, entries on cooldown are skipped, the first
response wins, failed entries get a cooldown (the `retry-after` seconds of a
rate-limited reply, else an exponential backoff of 30 s doubled per
consecutive failure,
capped at one hour), and a conversation that no entry answered is saved as a
timestamped JSON file.

## Layout

- `src/` — the verified library (Verus).
  - `cascade.rs` — `CascadeRun`, the decisions of a run as a state machine
    (which entry is next, what a reply leads to, the report of a total
    failure) and the cooldown arithmetic; `cascade_laws.rs` proves what holds
    of every run (the first usable entry wins, the cooldown rules, the backoff
    bounds).
  - `providers/` — the request each protocol sends and how its reply is read.
  - `json.rs`, `models/`, `config.rs`, `named_map.rs`, `error.rs` — the data.
  - `wizard.rs` — the interactive setup as a state machine, with its laws.
  - `secrets.rs`, `keys.rs`, `setup.rs`, `persistence.rs`, `cli.rs`, `order.rs`,
    `text.rs` — key selection and masking, the decisions of the `key` and
    `setup` commands, file names, argument handling, sorting and text helpers.
- `app/` — the command-line tool: HTTP, SQLite, keyring, files, terminal and
  the loop that performs the actions a `CascadeRun` asks for.
- `tests/` — tests of the library on concrete values.
