# core_api

The decision logic of a social/creator backend (auth, posts, feed, media,
private areas, gem settlement), written in Verus with its contracts proved.

- `src/` — the verified library. The service's decisions are functions here
  with `requires`/`ensures` contracts: the login throttle curve and its
  `Retry-After`, the registration and one-time-code flows, session
  and one-time-code hashing, the feed cursor codec and keyset pagination, the
  unlock price split and its ledger legs, the HLS manifest rewrite, the
  private-area configuration rules, content-signal validation, interaction id
  normalisation, settlement steps (a settled epoch answers from its marker),
  the unlock charge (a repeat unlock charges nothing) and the rate-limit
  configuration. Laws that
  span several functions are public `proof fn`s (`lemma_*`).
- `app/` — the process around it: axum routes and extractors, Postgres and
  Redis access, object storage, ffmpeg, the settlement scheduler and the
  transcode worker, and the floating-point feed score and interaction
  recency weight. It performs the I/O and follows the library's answers.
- `tests/` — runtime tests of the library on concrete values.

Calls into outside crates that the library makes (`hex`, `sha2`, `rand`,
`argon2`, `uuid`, and a few `std` functions) sit behind small trusted wrappers
whose doc comments say what their contracts claim.
