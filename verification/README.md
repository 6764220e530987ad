# patron

The backend of a single-creator membership site: fans subscribe to tiers or
buy single posts and series through Stripe, and the site decides, post by
post, what each visitor may read.

- `src/` is the library, verified with Verus. It holds the access rule
  (tiers, purchases, free roll-over dates, the creator), the Stripe webhook
  signature check and the database change each event asks for, the Stripe
  requests a checkout or a tier change sends, the VAPID token of a Web Push
  wake-up, and the response shapes the public site serves. The laws the
  library keeps are public proof functions beside the code they speak of.
- `tests/` runs the library on concrete values.
- `app/` is the HTTP server around it: configuration, sessions, Postgres
  queries, the calls to Stripe and to push services, and the JSON forms of
  the library's types.
