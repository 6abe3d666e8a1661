# async-chat-server

A small TCP chat server. Clients connect, say who they are and which room they want, and every
message they type is broadcast to the other clients in that room. A message is a line that is not
empty and does not begin with a slash. `/switch <room>` goes to another room, `/leave` ends the
session, and any other line is answered with an error.

- `src/` is the library, verified with Verus. It holds the rules of the chat:
  names and their normalization (`client`, `name`, `text`), messages (`message`), rooms on top of
  tokio's broadcast channel (`channel`, `room`, `publisher`, `inbox`, `hub`), the meaning of typed
  lines (`input`), the steps of a session (`session`) and how a connection begins (`connection`).
  `laws` states what holds of the chat as a whole.
- `app/` is the server around it: sockets, tasks, and the lock that connections share the rooms by.
  It asks the two questions, hands each thing that happens to the library, and writes what the
  library answers.
- `tests/` runs the library.

Run it with the address to listen on, `127.0.0.1:8080` if there is none, and connect with
`nc 127.0.0.1 8080`.

A room exists from the first time that someone joins it and is kept for the life of the server.
Client names need not be unique; a client does not see messages of others with its own name.
