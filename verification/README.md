# ib_adapter

Verified decisions of an Interactive Brokers adapter: orders and fills to reports, contracts to
instruments, and the state of the message bus that Python code talks to.

`src/` is the library, verified with Verus:

- `orders`, `contracts`, `wsh`: what the broker sends.
- `model`, `reports`, `params`: what the adapter makes of it.
- `wire`, `decimal`, `civil`, `text`, `bytes`, `index`, `intern`: numbers, dates, texts and maps.
- `execution`: updates, completed records, fills, their times, and the merge of open and completed
  orders into one snapshot. `execution::merge_laws` states what holds of every snapshot.
- `providers`: contracts and spreads to instruments, with the smallest legal quantity of an equity
  and the instant at which a contract expires.
- `msgbus`: the decisions of the bus. Python objects stay with the caller, who gives each a number.

Floating-point numbers reach the library as `wire::WireNumber`, a bit pattern with its decimal
renderings. Prices and quantities leave it as what they are made of, and the caller rounds them.

`app/` is ordinary Rust around the library: floating point, the clock, JSON, logging and Python.

Calls into `rust_decimal`, `jiff`, `time`, `ahash` and `ustr` stand behind small functions whose
doc comments say what is claimed of each call.
