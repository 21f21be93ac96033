# server

The logic of a chat server that sits between a terminal CLI client, a web
frontend and a language model, written in Verus with its contracts proved.

- `src/` is the verified library: the chat log and its rendering as context
  (`app_state`), instants in UTC (`timestamp`), the replies and the steps of a
  chat action (`handler`), the model request and reply bodies (`chat`), and the
  session pairing and message routing of the WebSocket server
  (`websocket_server`).
- `app/` is the program around it: the HTTP and WebSocket servers, the calls to
  the model, and the JSON forms of the frontend's messages. The server runs no
  CLI commands itself (they run in the user's CLI client), so `app/cli.rs`
  answers a command with an error and a chat action ends after its CLI step.
- `tests/` runs the library on concrete values.
