# Acty

A tiny actor-style coding agent, written in Verus.

The user types a prompt. The agent asks a model, runs the tools that the model
calls, feeds the results back and asks again, until the model answers without a
call or the configured number of turns is used up.

- `src/` is the library: the agent loop, the provider protocols, the tool
  registry and the rules of the tools, the supervisor and the frontend. All of it
  is verified. Actors are functions from a state and a message to a next state
  and the things to do.
- `app/` is the program: it owns the mailboxes, the HTTP client, the files, the
  processes and the terminal, and does what the library asks for.
- `tests/` runs the library on concrete inputs.

The proofs believe a few things about outside code without proof. They are the
functions marked `external_body` and the declarations in `src/json.rs` and
`src/output.rs`: `serde_json` parses, renders and copies documents, and the
standard library decodes the output of commands.
