# responses_proxy

A proxy that takes requests to the Responses API and sends them to a Chat Completions backend. The
conversion of a request is a library verified with Verus; the server around it is ordinary Rust, and
hands on the answers of the backend as they come.

- `src/` holds the library. `converter` converts whole requests, `transcript` the items of an input,
  `content` the content of a message, `call_ids` the ids of tool calls and their outputs, `settings`
  the settings of the server. `models` holds the requests, `text` what is needed of texts, `json`
  what is relied on of `serde_json`. `laws` states what holds of the conversion as a whole: no
  message is a developer's, no tool call and no output is lost, calls come before their outputs,
  calls and outputs without ids find each other, reasoning is told once or not at all.
- `tests/` runs the library on given requests.
- `app/` holds the server: it reads settings from the environment, reads and writes JSON, and talks
  to the backend.
