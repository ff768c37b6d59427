# tricklepay_stream

Linear token streaming on Soroban, with its rules verified in Verus.

A sender locks a total amount that vests linearly to a recipient between a
start and an end time, with an optional cliff. The recipient withdraws what has
vested, in full or in part; the sender may cancel before the end and take back
what has not vested.

- `src/` is the verified library: the vesting arithmetic, the creation rules,
  what each contract operation decides and the effects it asks for, the views,
  and the laws that hold across operations.
- `app/` is the Soroban contract around it: the SDK's contract, storage and
  event types, and entry points that read the ledger, check authorization, hand
  the decision to the library and carry out the effects it returns.
- `tests/` runs the library on concrete scenarios.
