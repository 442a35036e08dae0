# chipin

The verified core of a community savings platform: groups contribute in their
local currency, the pooled USDC earns yield, and payouts go back out in local
currency.

- `src/` is the library, verified with Verus. It holds the money arithmetic
  (`decimal`, over `rust_decimal`), currencies and exchange rates, the oracle's
  source order, currency conversion with the FX spread, fees, yield shares and
  their distribution, settlement units, revenue accounting and the transaction
  pipelines; and the rules of the accounts service: registration steps, OTPs
  (six digits, single use, at most three requests per ten minutes), collection
  codes and tokens, Argon2id hashing, sign-in, password reset, token refresh,
  errors and their HTTP/gRPC form, and the payment-provider choice.
- `tests/` runs the library on concrete values.
- `app/` is the program around it: settings from the environment, the Redis
  rate cache and OTP store, the oracle's network calls and the registration
  sessions.
