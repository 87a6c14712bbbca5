# xenstore

The core of an asynchronous Xenstore client, verified with Verus. It multiplexes
the operations of many clients over one connection to the Xenstore daemon and
routes watch events to their subscribers.

- `src/xs_async/interface.rs`: the multiplexer. At most 32 commands are under way
  at a time. Each has a slot, whose number is the request identifier.
- `src/xs_async/laws.rs`: what holds of each of its steps.
- `src/xs_async/history.rs`: what holds of it over a whole run.
- `src/wire.rs`: messages and their payloads.
- `src/token.rs`: the tokens of watches, which are random UUIDs.
- `src/tokio.rs`: opening of the interface of a Unix system.
- `src/smol.rs`: the interface of a Windows guest.
- `src/text.rs`: two functions of the standard library with their contracts.
- `app/`: the tasks, channels and devices around the library.
- `tests/`: tests of the library with real channels.

The library never waits. It is handed what came in, answers clients over their
one-shot channels, and returns what has to be sent. The caller sends it and tells
the library whether that worked.
