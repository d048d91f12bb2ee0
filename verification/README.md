# poolcar

The verified core of a pool-car tracking backend: the rules of its web pages
and API, written in Verus with their contracts proved.

- `src/` is the library. `text` renders and reads numbers and flags;
  `auth_utils`, `auth` and `middleware` read credentials, decide sign-ins and
  guard roles; `config` reads the environment's values; `time` works on the
  WIB (UTC+7) calendar day; `models` holds the API's records and paging;
  `error` maps errors to HTTP answers; `csv_export` writes the car and audit
  exports; `pages` decides what the server-rendered pages show; `dashboard`,
  `tracking` and `chart` cover the live feed of tracker reports.
- `tests/` runs the library on concrete values.
- `app/` is the command line around it: environment, account set-up, session
  tokens, HTTP glue, and the distance computations in floating point.

Calls into `argon2`, `chrono`, `csv`, `jsonwebtoken` and `serde_json` stand
behind small trusted wrappers whose contracts say what those crates do.
