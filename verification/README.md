# encro_terminal

The terminal front end of a chat client. A user types lines, scrolls, and sees either the output
of commands or the chat that is going on.

`src/` is a library of plain state and plain decisions, verified with Verus: the editing of the
input line, the effect of every key and every command, what stands on the screen and where, and
which command goes to whom. `src/laws.rs` states what holds across them.

`app/` holds the tasks around it: they wait for keys and commands, draw with ratatui, and send
lines to the client.

`tests/` runs the library with the crates that it calls.
