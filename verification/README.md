# daemar

The verified core of a small agent factory: an append-only ledger of
slips, a Card store for workflow records, one-shot sandboxed runs, and the
factory that flies agents through stages behind walls.

- `src/` is the library, written in Verus. Every function carries a
  contract, and the laws the components keep (what a fold of the ledger
  gives, how a stage witnesses its failures and tears its wall down, what a
  flight closes and what it cocks, what a
  changeset may touch, which tools a seat may call, when a
  gate lets a change land, what an idempotent retry answers) are public
  proof functions named `law_*`.
- `tests/` exercises the library on concrete values.
- `app/` is the thin shell around it: process and file I/O, the HTTP model
  provider, git and container runtimes, and the serde edges.

Outside crates are called from `src/` only through small trusted wrappers,
each documented with what its contract claims of the crate it calls.
