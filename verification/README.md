# light_example

Three demo services of an insurer, with their rules verified by Verus:

- the customer profile service: customers, preferences, policies, vehicles and prior claims;
- the offer decision service: offers, decisions on them, claim triage and settlement
  recommendations, with requests that can be repeated under a key;
- the claim server: JSON-RPC sessions within which claim tools are listed and called.

`src/` holds the rules as plain functions with contracts. `src/laws/` states what holds of the
services as a whole: repeated requests get their first answer, refused requests change nothing,
sessions stay open until they are ended, unknown customers are not found anywhere, and so on.
`app/` puts the services behind HTTP, and `tests/` runs the library on concrete values.

What is not proved is small: `text.rs`, `headers.rs` and `json.rs` say what they rely on from the
standard library, from the `http` header map and from `serde_json`.
