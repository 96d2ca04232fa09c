# Payment channels

Unidirectional payment channels on Soroban (Stellar), for funders who may hold
nothing but an EVM wallet key. Four contracts, written as verified state
machines:

- **channel**: a funder deposits tokens and pays a recipient off-chain by signing
  commitments to a cumulative total. The recipient settles or closes with the
  highest one. The funder can start to close too, and is refunded what is left
  once a waiting period is over.
- **account**: an account that an EVM wallet controls through `personal_sign`.
- **account factory** and **channel factory**: deploy the two, at addresses that
  are bound to the signer or to the funder.

## Layout

- `src/`: the verified library. A contract function takes an invocation, which
  holds what the contract's storage contains, and lists in it what the host is
  to do: require an authorization, write an entry, move tokens, publish an
  event, deploy. Its contract says exactly what that is.
  - `src/channel/laws.rs`: what holds of a channel over any series of
    operations, such as that the recipient never gets more than was deposited,
    that every commitment within the deposit is honoured until the channel is
    final, and that a refund never comes before the waiting period is over,
    unless the recipient closes the channel before.
  - `src/platform.rs`: everything that is taken for granted of the hash
    functions, signature schemes, serialisation and addressing.
- `app/`: the contracts as Soroban runs them, around the library.
- `tests/`: the contracts on a Soroban test host, and the library by itself.
