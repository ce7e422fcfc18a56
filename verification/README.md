# escrow

A Verus-verified model of two small Solana programs built with Anchor on
Token-2022:

* the escrow program: `initialize` opens a deal between a sender and a
  receiver for an amount of one mint, creating a record at a program derived
  address and a vault (the record's associated token account); `deposit`
  moves the amount into the vault; `release` pays it to the receiver;
  `cancel` gives it back to the sender. `release` and `cancel` close the
  vault and the record and return their rent to the sender.
* the token starter's `burn_tokens`, which lowers a token account's balance
  and the mint's supply.

For each instruction the library states, and Verus proves, which checks run
and in which order, which failure is reported first, that a failure changes
no account, what every account holds after a success, and the exact calls
the instruction hands to the system, associated token and token programs
(accounts, amounts, decimals, authorities and the escrow's signer seeds).
`src/laws.rs` proves properties that span instructions: the deal's life
cycle only moves forward, nothing can be replayed, tokens and lamports are
conserved, and initializing, funding and cancelling a deal gives the sender
back what it had.

Layout:

* `src/address.rs` — addresses, program ids, program derived addresses
  (computed by `anchor_lang`'s `Pubkey`);
* `src/account.rs` — account models, the account framework's loading and
  constraint checks, the token program's transfer, close and creation rules;
* `src/state.rs` — the deal's record and status transitions;
* `src/call.rs` — the calls an instruction asks other programs to make;
* `src/dispatch.rs` — reading an instruction and its arguments from its data;
* `src/instructions/` — `initialize`, `deposit`, `release`, `cancel`;
* `src/token_starter/` — `burn_tokens`;
* `app/lib.rs` — the runtime glue: reads the instruction and the accounts,
  asks the library, then carries out the calls the library returned.
