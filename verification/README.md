# apoptotic

The logic of a small Minecraft LAN server, written in Verus: Verus checks
every function under `src/` against its `requires`/`ensures` contract.
Most contracts state the result exactly; some say less, where the result
rests on randomness, the clock or an outside crate (their doc comments say
what is left open). The item table holds only the names whose ids the
library knows, not the game's full registry. Commands that need floating
point (teleporting, world borders, ...) are not part of the library, nor
are those whose state and replies belong to the player manager
(`/effect`, `/tag`, `/enchant`, `/bossbar`, `/locate`, ...):
the dispatcher answers them as unknown commands.

## Layout

- `src/` — the verified library.
  - `text`, `words`, `parser` — numbers, words and arguments as the server
    reads them; `table` — an insertion-ordered map used by the other modules.
  - `types`, `position`, `block`, `biome`, `effect`, `item`, `sound`,
    `constants`, `world_state`, `team`, `error` — the game data model.
  - `commands/` — the command registry and the commands it runs: each one
    checks its arguments, changes the server data
    it owns (world state, scoreboard, teams) and lists the events the server
    performs (chat, kicks, bans, items, titles, ...). `/execute` runs its
    commands back through the dispatcher, one after another.
  - `net/` — frame lengths, AES-CFB8, the session-server hash and offline
    ids, the status/login/configuration phases as state machines, rate
    limiting, chunk streaming plans, block-change tracking, and play-phase
    decisions. The game port's connection handling that would drive these
    machines needs the protocol's packet codecs, which are not part of
    this project; `app/` accepts connections (under the rate limit) only.
  - `admin/` — the server console, RCON packets and sessions, metrics.
- `tests/` — tests run against the compiled library.
- `app/` — plain Rust around the library: sockets (LAN announcements, RCON,
  the game port), the console, and the locks that hold the shared state.

Outside crates are reached through a few trusted wrappers (AES block
encryption, SHA-1, UUID v3 and parsing, RSA, random bytes, the clock, and
Unicode lower-casing); their doc comments say what is assumed of them.
