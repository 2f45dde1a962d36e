# Phi Bitwarden Helper

Out-of-process Bitwarden vault helper for Phi Browser. Phi spawns the helper
with one end of a socketpair on fd 0 and talks framed JSON over it: the helper
looks credentials up in the unlocked vault, and the app keeps the session at
rest.

`src/` is the helper's logic as a Verus library: every function states what it
computes, and Verus proves it. Seven small wrappers around outside calls are
believed instead: `parse`, `render`, `open_value` and `close_value` in `codec`
(`serde_json`), `search` in `uri` (`regex`), `default_urls` in `device`
(`bitwarden-core`), and `lowercase` in `text` (the standard library). Each says
above it what is taken on trust.

| Module     | What it holds                                                        |
|------------|----------------------------------------------------------------------|
| `text`     | trimming, searching and comparing texts                              |
| `json`     | JSON values; `codec` reads and writes them with `serde_json`         |
| `frame`    | length-prefixed frames                                               |
| `uri`      | match rules of stored URIs (regular expressions by `regex`)          |
| `cipher`   | vault items: which queries they answer, what is served of them       |
| `lookup`   | resolving a query: one hit, candidates, nothing, or a refusal        |
| `engine`   | the engine seam, its values and errors, and the stub engine          |
| `signin`   | login requests and what their answers mean                           |
| `session`  | the account session: lock, unlock, restore, timeouts, what to persist |
| `device`   | client settings and the device identifier                            |
| `command`  | requests and the queries they carry                                  |
| `reply`    | results, envelopes and persist events                                |
| `protocol` | answering a request                                                  |
| `server`   | the course of a connection, and the watch beside it                  |

The `pub proof fn`s beside the code state what holds of it as a whole: an
ambiguous lookup releases no item, withheld secrets are never sent, under the
browser-restart policy a restart never returns unlocked, nothing is served before
the client has answered the challenge.

`app/` is the program around the library: the socket, the clock, the device
identifier's file, threads, and the Bitwarden SDK. The calls into the SDK's vault
crates are built only under `--cfg bitwarden_sdk`, next to a checkout of the SDK,
since `bitwarden-pm` and `bitwarden-sync` are not on crates.io; without it the
helper serves the stub engine. `tests/` runs the library.
