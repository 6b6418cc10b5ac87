# auto_switch

Automatic node failover for a proxy client: a heartbeat probes the current exit, and when it fails
three times in a row the running core is switched to the fastest node that it has loaded, without a
restart.

- `src/` holds the decisions, verified with Verus: the timing of switches, the choice of the node,
  the transaction that switches to it. Nothing in it performs I/O.
- `app/` follows the decisions step by step: it waits, sends the probes and works on the proxy
  runtime, which a trait stands for. What a configuration means to the core is for that runtime to
  tell.
- `tests/` runs the library on concrete values.

Besides the contracts of the functions, the `law_` proof functions state what holds across calls: that
switches are a cooldown apart, that a saved choice is never abandoned, that a newer choice of the user
always wins, that a heartbeat ends with its core.

What is believed without proof is how `serde_json` reads and changes a document (`src/json.rs`), which
characters are white space (`src/text.rs`), and how bytes are decoded (`src/probe.rs`).
