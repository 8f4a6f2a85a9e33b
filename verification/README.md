# server_sync

Two tools that copy directory trees to another host with `rsync`, with their rules stated and
proved in Verus.

- The backup tool plans, runs, compares and exits. It takes predefined jobs only, makes a new
  snapshot with every run, never asks for a deletion, and marks a run complete only after the
  transfer, the comparison and the upload of the completion marker have ended well.
- The dashboard shows tasks that a daemon keeps synchronized, and puts new ones together.

## Layout

- `src/` is the library. What it says of its functions is proved.
  - `hpc_sync/`: the configuration and its rules, the command lines of `rsync` and `ssh`, the
    operations, and what is printed. `safety.rs` and `operations/laws.rs` hold what is true of all
    commands and of whole operations.
  - `server/`, `common/`, `protocol.rs`: the requests, tasks and workers of the daemon.
  - `client/`: the keys, the answers and the screen of the dashboard.
  - `text.rs`, `lines.rs`, `number.rs`, `path.rs`, `order.rs`: strings, numbers, paths and sorting.
- `app/` is the rest: command lines, files, sockets, processes and the terminal.
- `tests/` runs the library.

An operation is a machine. It is given a state and the answer to what it asked for last, and gives
the next state and the next thing to ask for. `app/` performs what is asked for: it reads and
writes files, takes locks and runs programs.

## What is taken on trust

A few small functions call other crates or the standard library, and what is said of these calls is
not proved: the SHA-256 digest (`sha2`), the clock and its texts (`chrono`), a regular expression
(`regex`), the splitting of the screen (`ratatui`), and the decoding, quoting and parting of
strings and paths (`std`). Each says so where it stands.
