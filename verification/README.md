# simple_chat

A small chat service. Users connect to a server under a name of their own; what one of them says is
shown to all others.

- `src/` is the verified library: the messages, the commands of the terminal, the user map, how
  users are registered and deregistered, how a message is passed on, and what each task of the
  server and of the client does on each event. `src/laws.rs` states what holds of them together.
- `app/` is the program: it reads and writes the streams, turns messages into lines of JSON and
  back, and runs the tasks. `simple_chat server [-i IP] [-p PORT]` runs a server, and
  `simple_chat client -i IP -p PORT -u USERNAME` a client.
- `tests/` holds the tests of the library.

At the client's terminal, `send TEXT` says something to all others, and `leave` leaves the server.

The one outside call in the library is in `src/channel.rs`: tokio makes the channel over which
messages reach a user.
