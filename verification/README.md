# wasm_fabric

A registry of an editor's plugin modules that routes requests to the module best able to serve
them. Modules register with the capabilities they offer, report their state and health, and
leave; a request for an operation in a language goes to the healthiest, closest and most
urgent module that is ready for it.

- `src/fabric_types.rs`: capabilities, requests, registrations, candidates, routes, snapshots
  and events, each with its view
- `src/routing.rs`: routing policies, and the orders of capabilities and candidates
- `src/model.rs`: the fabric as a mathematical value, and what each operation makes of it
- `src/inner.rs`: the fabric's state, for one owner at a time, with exact contracts
- `src/fabric.rs`: the fabric that threads share, behind the lock of `src/lock.rs`
- `src/laws.rs`: what holds of the fabric as a whole
- `src/text.rs`: the order of text, and decimal numbers
- `app/`: the serialised forms, and logging

Each operation on the shared fabric is one step of the model: its contract says from which
state the step went, to which, and what was answered. The steps of one fabric form one history:
each state is reached from the empty fabric, and of two steps one comes before the other.
