# quidproquo

A verified core for an NFT escrow marketplace on Solana, written in Verus.

A seller lists an NFT (`make`): the offer is recorded and the NFT moves into
an escrow token account. The seller may reprice the offer (`update_offer`) or
cancel it (`cancel`), which returns the NFT. A buyer accepts it (`accept`):
the price is split between the seller, the marketplace (whose account and cut
`new` configures) and the creators listed in the NFT's metadata, and the NFT
goes to the buyer.

- `src/` is the verified library. Each instruction checks its accounts
  (signatures, addresses derived from seeds, that accounts to be created are
  not in use, that the buyer receives the NFT in their associated token
  account, ownership constraints), decides, updates the accounts it owns
  and returns, in order, the transfers and the account creations and closings
  it asks for.
  `src/laws.rs` proves properties across instructions: how a sale splits the
  price, that the buyer pays at most the price where the creators' shares
  sum to at most 100 percent, that a listing can always be
  cancelled or repriced by its seller, that the configuration and a listing
  are each created once, that the escrow keeps the NFT across repricings,
  and that a sold or cancelled offer is final.
- `app/` is the Anchor program around it: account (de)serialization and the
  cross-program invocations that perform the transfers.
- `tests/` runs the library on concrete accounts.
