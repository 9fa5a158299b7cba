# maw_grok

The `maw grok` subcommand (xAI image and video generation) as a verified
Verus library plus a thin executable.

- `src/` — the verified library:
  - `text.rs`: decimal notation of integers, text concatenation and comparison;
  - `json.rs`: the JSON tree read from `serde_json`, member lookup, `as_str`
    and RFC 6901 pointers;
  - `output.rs`: `CliOutput`, the exit code and the two output texts;
  - `dispatch.rs`: what the arguments ask for;
  - `session.rs`: where the session file lies, `status`, the API token, `login`;
  - `generation.rs`: request bodies, reading the API replies, the bounded
    polling of a video request, output file names;
  - `laws.rs`: properties shared by all answers.
- `app/main.rs` — processes, files, HTTP (reqwest), timers (tokio).
- `tests/` — tests of the library on concrete values.
