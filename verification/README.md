# atlas_os

A `.usdc` domain registry and the fulfillment workflow of a trade, written in
Verus.

- `src/registry.rs`: domain-name rules (`validate_domain`), the registry
  (`AtlasRegistry`) and its model as a map from names to records.
- `src/registry_laws.rs`: what holds across registry requests.
- `src/fulfiller.rs`: the fulfillment record and its stages.
- `src/fulfiller_laws.rs`: what holds across fulfillment steps.
- `src/text.rs`: characters and UTF-8 byte length of strings.
- `src/trade.rs`: the states of a trade escrow.
- `app/`: the command-line program, the escrow's floating-point release rule,
  error messages, and serializable copies of the data types.
