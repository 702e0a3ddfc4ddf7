# e-transfer

A payment gateway that moves money from a payer to a payee through
TrueLayer: the payer pays into a merchant account, the payee answers a
security question and picks an account, and the gateway pays out to it.

`src/` is the verified library (Verus):

- `domain` — payments, their states and the user model; the state of a
  payment is derived from the times of its steps: those of its payout once
  one has begun, else those of its refund, else those of its inbound leg. A
  payout is recorded on the payment, so a second one is refused.
- `entities` — the stored documents of payments and users, and the mapping
  to and from the domain model (`domain` holds the `From` impls).
- `store` — row versions and upsert outcomes of the database layer.
- `ids`, `time`, `text`, `crypto` — identifiers, timestamps, string helpers,
  and the trusted wrappers around uuid, chrono, argon2, base64, rand,
  email_address and cookie parsing.
- `gateway` — the web endpoints' decisions: public errors and links
  (`api`), TrueLayer webhooks and their signatures (`webhook`), the pages of
  the payment, deposit and registration flows (`pages`), the admin tables
  (`admin`), TrueLayer request bodies (`truelayer`), and the gateway's own
  table of payment states (`records`).
- `plaid`, `payment_manager`, `legacy` — the Plaid deployments, the payment
  manager's configuration and replies, and the first layout of stored
  payment states.

`app/` is the server around it: configuration, actix-web handlers, the
PostgreSQL and TrueLayer clients, HTML, and tracing.
