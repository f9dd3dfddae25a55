# escrow

A milestone-based escrow between a client, a freelancer and an arbiter,
verified with Verus.

- `src/` is the verified library: the escrow's state (`EscrowContract`),
  the model of what every call does (`model`), the calls themselves, each
  proved to do exactly what the model says, and laws that hold across all
  calls (`laws`, `accounting`): the state invariant, replay protection,
  who may act, deadline enforcement and how tokens move; and, as long as
  ledger time does not go back, paid-out milestones staying frozen, a
  single payout per milestone, and (once funded from pending milestones
  with distinct ids) an escrow balance always equal to what the unpaid
  milestones hold.
- `app/` is the Soroban contract around the library: it loads the stored
  state, obtains authorizations, calls the library and carries out the
  token transfer and events of an accepted call.
- `tests/` run the library through the escrow's scenarios.
