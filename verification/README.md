# billing

The billing core of the Parakram backend, written in Verus: the plan catalog
and its quotas, the Stripe requests the backend sends, Stripe webhook
signature verification, and the checkout, billing-portal and webhook-event
flows as verified state machines between outside calls.

- `src/plans.rs` — tiers, the catalog, per-tier lookup, configured prices.
- `src/stripe.rs` — Stripe reply shapes, request builders, price → tier.
- `src/webhook.rs` — `Stripe-Signature` parsing and verification, event handling steps.
- `src/api.rs` — error bodies, subscription/usage views, checkout and portal flows, webhook admission.
- `src/text.rs` — integer parsing/formatting and string equality on bytes.
- `src/primitives.rs` — the trusted wrappers (HMAC-SHA256, hex, UTF-8, clock).
- `app/` — axum routes, Postgres queries and Stripe HTTPS calls that drive the library.
