# landz_server

The verified core of the Living Landz game server, written in Verus.

- `src/` is the library. Every function in it carries a contract that Verus
  proves: the action manager and the action processor's cache and tick, the
  request handlers as step machines (founding a hamlet, crafting, harvesting,
  building, training, moving, creating a lord, destroying a building,
  liquidating an organization) with their checks, refusals and timings, the
  population tick, the merging of road chains, the population rules, road chains,
  grey-map morphology, the exploration blur, password hashing (through
  `argon2`), Base64 and the binary framing of bulk downloads, the HTTP login and
  registration decisions, names and portraits of new units, and the server's
  settings and command line.
- `tests/` runs the library on concrete values.
- `app/` is the program around it: configuration from the environment, the
  database connection, the HTTP server, the loops that carry out the steps the
  library decides (`app/handlers.rs`, written against `GameIo`, the interface
  of the game's database tables and client bridge, which this program does not
  yet implement, so the loops are not started), and the computations done in
  floating point.
