# smush_discord

Game information for a Discord rich presence of a fighting game: a plugin on
the console publishes the state of the match, a desktop client reads it and
shows it as the player's presence.

- `src/` is the verified library (Verus): the fighter and stage codes, the
  published state and its updates, the packet framing, the search for the
  code patterns that locate the hooked game functions, the server's
  decisions and the content of the presence.
- `tests/` exercises the library.
- `app/` is the desktop client: reading the console's address, the TCP
  connection, JSON decoding and the Discord calls.

The plugin's own shell (the hooks into the game, the socket calls and the
thread that runs the server) is not here: it is built on the `skyline` and
`smash` crates, which target the console and cannot be built on a desktop.
Its decisions stand verified in `src/`: `server::server_step` drives the
server, `scan::resolve_hook_offsets` locates the hooks, and the `Info`
setters record what the hooks see.
