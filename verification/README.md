# tw_bitcoin

Builds Bitcoin transactions, has their inputs signed, and serializes them.

- `builder`: the `TransactionBuilder`, from adding inputs and outputs to the
  serialized transaction.
- `input`, `output`: what a transaction is built from.
- `claim`, `hash`: what a signer is given and what it answers.
- `keys`, `script`, `transaction`: keys, scripts and transactions as plain values.
- `codec`: the integers and byte strings of the consensus encoding.
- `laws`, `encoding_laws`: what holds between the parts.
- `outside`: the calls into the crate `bitcoin`, and what is relied on of each.
