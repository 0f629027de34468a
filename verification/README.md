# devtester

Backend logic of a crowdsourced closed-testing service: developers spend
credits to submit apps, testers join them and earn credits with daily
check-ins over a fourteen-day testing period.

- `src/` is the verified library. `validation` checks requests, `text` holds
  the string operations it needs (trimming, prefixes, e-mail normalization),
  `password` hashes and verifies passwords with Argon2, `auth` signs and
  checks JSON Web Tokens and reads bearer credentials, `error` maps failures
  to answers.
  Each request is a state machine (`register`, `queries`, `submission`,
  `joining`, `checkin`) that takes the reply to its last database command and
  gives the next command (`flow`). `laws` proves what registration, login,
  submission, check-in and joining promise across several steps; `runs`
  proves, over every sequence of database replies, that credits change only
  together with their ledger record and that a tester joins only an
  application with room.
- `app/` is the HTTP server: it runs the state machines against PostgreSQL,
  reads the clock, and serializes answers.
- `tests/` exercises the library on concrete inputs.
