# nft_staking

A Solana program that lets holders of whitelisted NFT collections stake their
NFTs in a vault, receive a proof token for each stake, and collect reward
tokens over time.

`src/` is the verified library:

- `codec`, `instruction`: byte layouts of the account records and of the
  instructions, with proofs that decoding inverts encoding.
- `reward`: the reward schedule (periods, bonus percentage, lifetime cap) with
  proofs that payouts stay within the cap and never make a later claim fail.
- `keys`: the configured addresses and the program-derived and associated
  token addresses.
- `admin`, `staking`, `claim`, `stake`: for each instruction, the account
  checks in order, with their error codes, and the list of cross-program calls
  and account writes the instruction asks for.
- `entry`: which instruction runs; `laws`: what holds of every instruction.
- `outside`: the calls into the Solana crates, with the contracts they are
  trusted to meet.

`app/` is the on-chain entry point: it reads the accounts and the clock and
rent variables, asks the library for a plan, and performs the plan's calls.
