# yewchat

The logic of a small WebSocket chat, verified with Verus.

- `src/protocol.rs`: the frames exchanged with the server (`MsgTypes`,
  `WebSocketMessage`, `MessageData`) and their mathematical models.
- `src/chat.rs`: the chat view's state (`Chat`), its events (`Msg`), what it
  does after each (`Update`) and what it shows (`ChatView`).
- `src/login.rs`: the login form.
- `src/client.rs`: the terminal client's decisions.
- `src/text.rs`: avatar addresses, decimal numbers, the `.gif` test and the
  blank-input test.
- `src/laws.rs`: properties that span several events.
- `app/`: the terminal client program (tokio, tokio-websockets), the JSON
  form of the frames (serde, serde_json) and the browser side of the chat
  view (yew, web-sys).
