# fiat_bridge

The rules of a fiat bridge contract, written and proved in Verus.

A bridge takes deposits of one token against numbered receipts and pays tokens
out, at once or by time-locked withdrawal requests, under an administrator who
sets the deposit limit and the lock period and can pause it.

- `src/bridge.rs`: the bridge, `FiatBridge`, with its contracts.
- `src/model.rs`: the bridge as a mathematical value, which calls it refuses and
  why, and what an accepted call makes of it.
- `src/laws.rs`: what holds across calls, over whole histories of them.
- `src/types.rs`, `src/address.rs`: the values that come in and go out.
- `src/reference.rs`: payment references, kept in `soroban_sdk::Bytes`. The only
  trusted items are here: the type, the name for its contents, and `Bytes::len`.
- `app/`: the Soroban contract around the library: storage, authorization, token
  transfers and events.
- `tests/`: the bridge on a test ledger with a real token contract, and the rules
  by themselves.
