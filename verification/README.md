# limero

A small actor toolkit verified with Verus, and the demo actors built on it.

- `src/channel.rs`: the bounded queue (`tokio::sync::mpsc`) behind every
  mailbox, declared to Verus with a few trusted wrappers.
- `src/limero.rs`: sinks, sources and function stages.
- `src/led.rs`, `src/link.rs`, `src/pubsub.rs`, `src/pingpong.rs`: each
  actor's state and the step function that answers one event.
- `src/wiring.rs`: how sources, stages and mailboxes are connected, and the
  laws that span several actors.
- `app/`: the program: logging set-up and the asynchronous loops that wait
  for events and hand them to the step functions.
- `tests/`: tests of the library on concrete values.
