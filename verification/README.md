# homeassistant

Home Assistant adapter: the deploy lifecycle of an instance (install, update,
backup, restore on Docker or Proxmox LXC) and the request shapes of its REST
client, written in Verus with their contracts proved.

- `src/text.rs` — decimal rendering, white-space trimming, trailing-slash
  stripping and percent-encoding of URL path segments, with their laws.
- `src/error.rs` — the tools' errors and the exact text of each.
- `src/plan.rs` — the steps a tool asks of the host: probe a path, run a command.
- `src/lifecycle.rs` — the planners of the four lifecycle tools and their reports.
- `src/session.rs` — the state machine that drives a plan step by step, and its laws.
- `src/client.rs` — endpoint resolution and the HTTP requests of the REST client.
- `app/` — the command line: runs the commands, probes the file system, sends
  the HTTP requests.
- `tests/` — tests of the library on concrete values.
- `extras/compose.yml` — the Compose stack the Docker runtime drives; it reads
  `HA_IMAGE` (set by update) and `HA_CONFIG` (set by install).
