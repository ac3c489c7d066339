# cursor-sdk

A client for Cursor's Cloud Agents HTTP API, with its logic verified by Verus.

`src/` is the verified library:

- `types.rs`: the API's values (agents, runs, stream events, listings) and a
  nanosecond `Duration`.
- `error.rs`: `CursorError` and the recognition of an expired event stream.
- `client.rs`: the client builder and the configured client.
- `request.rs`: every API call as plain values (method, path, query, headers).
- `response.rs`: success statuses, fallback messages, and the error built from
  an error answer.
- `stream.rs`: decoding of server-sent run events.
- `wait.rs`: the decisions of waiting for a run (stream first, then polling
  with an optional time limit and an optional cap on polls), as a state
  machine from state and event to next state and action.
- `console.rs`: the text that the command-line tool prints.
- `text.rs`, `json.rs`: string helpers and the JSON values carried through.

`app/` performs the HTTP requests, streams events, sleeps, reads the
environment and runs the `cursor-cookbook` command line; it hands the library
plain values and prints what the library returns.
