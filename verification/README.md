# api_lightning

A Lightning Network payment service for a storefront: it creates invoices on
an LND node, looks them up, checks buyers' invoices, and runs background jobs
that mark invoices paid or expired, pay each collaborator's share of a sale
and report the paid shares to the business API.

- `src/` is the library, verified with Verus: the invoice checks (amount,
  expiry, expiration window), what is sent to the node and what is made of
  its replies, the bearer-token decisions, the database rows built from a
  sale, and every decision of the background jobs (which rows each job takes,
  the steps of paying a share, when an invoice counts as distributed). Calls
  into `lightning-invoice`, `base64`, `hex`, `uuid`, `serde_json`, `chrono`
  and a few std functions stand behind small trusted wrappers whose contracts
  are stated in their doc comments.
- `app/` is the service around it: the actix-web routes, the database
  (diesel), the HTTP calls to the node and the business API, JSON bodies,
  settings and the loops of the jobs.
- `tests/` runs the library on concrete values.
