# pos_creator

Verified decision logic of two DEX position-creator contracts:

- the locked-token position creator, which turns a single MOAX or wrapped
  MOAX payment into a liquidity position (wrapped LP tokens) or a farm
  position (wrapped farm tokens): wrap MOAX, swap half of it for the base
  token, lock that, add both as liquidity through the DEX proxy, and
  optionally enter the farm;
- the automatic position creator's deployment, pair and wrapper calls.

Calls into other contracts are plain values (`calls::ContractCall`). A
position creation is a state machine (`pos_flow`): each endpoint returns the
first call to make, and `CreatePairPosModule::resume` takes what the call
returned and gives the next call, the final payments to send, or the abort.
`laws` holds the properties proved of that machine, among them that the
contract keeps none of the tokens it handles. Token amounts are unbounded
(`big_uint`), as they are on chain.

Layout: `src/` is the library, verified with Verus; `tests/` runs it;
`app/` is the host side that performs the calls and sends the payments.
