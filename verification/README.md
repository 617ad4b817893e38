# Twilight Bark — verified core

Twilight Bark is a fabric on which agents find each other, exchange tasks and share
observations. This crate holds its logic as a Verus library (`src/`), with each
function's behaviour stated in `requires`/`ensures` and proved, except where an outside
library decides (the text `gray_matter` writes for a note's front matter, the clock, random
identifiers), which the contracts state only as far as those libraries promise; the
programs that run it (`app/`) do the I/O around that library.

## Layout

- `src/proto.rs` — the message model (identities, presence, heartbeats, targets,
  envelopes) with views in which strings are `Seq<char>`.
- `src/registry.rs` — the traffic controller: the agent registry and the traffic matrix,
  both `dashmap::DashMap`s behind wrappers whose contracts speak of the maps' contents;
  target resolution, traffic counting, analytics, stale-agent cleanup, and the laws that
  tie these operations together.
- `src/ipc.rs` — the daemon's local protocol as a decision function: request in,
  step to perform (answer, announce, send a task, send an answer) out; what a
  disconnect does; and the laws that a request sent to one agent reaches it from any
  node and that its answer goes back to the asker.
- `src/tasks.rs` — the task side of a client connection: which requests and results
  from the fabric are handed to a subscribed client, and the requests it has still to
  answer.
- `src/client.rs` — how a client of the daemon writes its commands and reads and sorts
  the daemon's lines (events queued in arrival order, answers to the waiting command).
- `src/json.rs` — JSON text as `serde_json` writes it.
- `src/frontmatter.rs` — where a note's front matter block lies, and which blocks the
  YAML reader can take without exhausting the stack.
- `src/bus.rs` — the key space on the bus, the heartbeat, and the proofs that every
  node's announcements and traffic reach the tenant-wide subscriptions of every node.
- `src/envelope.rs`, `src/identity.rs`, `src/config.rs`, `src/ziti.rs`,
  `src/adapters.rs`, `src/console.rs`, `src/eventlog.rs` — building envelopes and
  identities, completing the daemon configuration and planning its start, the Ziti
  command lines, the adapters' observations, enrollment slots.
- `src/sources.rs`, `src/paths.rs` — the clock, random identifiers and path arithmetic,
  behind trusted wrappers.
- `tests/` — executable tests of the library.
- `app/` — one executable: `twilight-daemon` (Unix socket server, Zenoh session, Ziti
  sidecar) when invoked under that name, `twilight-cli` otherwise; plus the daemon
  client and the adapters.
