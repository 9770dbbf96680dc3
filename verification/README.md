# word_guess

A word guessing game. Players connect to a server; one of them chooses an
opponent and a word, the other has to guess it, and the first can give hints.

- `src/` is the game itself, verified with Verus: the workers of the server and
  of the clients as state machines, the storage that the server's workers share,
  the arguments of the programs and the texts that users see. `laws.rs` and
  `system.rs` state what holds of the game as a whole.
- `app/` holds the two programs around it: sockets, threads, the terminal and
  the encoding of messages on the wire.
- `tests/` runs the library on concrete games.

```
word_guess server --server-password PASSWORD [--tcp-port PORT] [--unix-socket-path PATH]
word_guess client (--tcp-address ADDRESS:PORT | --unix-socket-path PATH)
```
