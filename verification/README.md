# tradebot

The decision core of an algorithmic trading bot for Kalshi prediction markets, written in Rust and
verified with Verus.

- `src/` is the library. Its functions have contracts that Verus proves, except for the wrappers
  around outside calls, whose contracts it takes on trust. They cover order books and the
  trade tape, messages of the exchange and of four crypto venues, the index estimate, the guards
  between a price update and a signal, risk checks, the life of an order, reconciliation, kill
  switches, feed health, supervision of tasks, and the checks on the configuration.
- `tests/` runs the library on concrete values, together with the outside crates it calls.
- `app/` is the program around it: sockets, HTTP, database, message bus, and the fair-value model,
  which is arithmetic on doubles.

Numbers that are doubles reach the library as their 64 bits (`float::Float`). It compares them and
now and then doubles one; whoever needs more arithmetic supplies its result, or the operation.

Moments are passed in, so that every decision is a function of its arguments: nanoseconds of a
monotonic clock, or a `time::Moment` of the wall clock. An operation that needs the exchange comes in two steps: one that prepares the
request, and one that takes the reply.

The outside crates whose calls the library trusts are declared next to their callers: `dashmap` in
`dash`, `serde_json` in `json`, `rsa`, `sha2` and `base64` in `kalshi::auth`, `rust_decimal` in
`kalshi::price`, `urlencoding` in `kalshi::client`, and `chrono` in `clock`.
