# spl_token_substreams

Token program events of Solana blocks, and the database rows that record them, verified with Verus.

- `src/input.rs`: what the library reads of a block: transactions, their accounts and token
  accounts, and their instructions with the data decoded.
- `src/events.rs`: the events and their views; `src/cast.rs`: reading an event as one payload type.
- `src/instruction.rs`: one instruction to its event (`parse_instruction` and the typed
  `parse_*_instruction` functions).
- `src/transaction.rs`: the events of a transaction and of a block.
- `src/database.rs`, `src/tables.rs`: the database rows of a block's events, built with
  `substreams-database-change`.
- `src/base58.rs`: base58 text through `bs58`, and what that text is.
- `src/laws.rs`: properties of the library as a whole; `src/row_laws.rs`: what each event's
  database row holds, and that each event has its row.
- `app/`: the substreams side, which turns a Solana block into the library's input.
