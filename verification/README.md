# ancient_star_catalog

Backend of a digitised catalogue of ancient Chinese star, comet and guest-star
records, with coordinate conversion (precession, nutation, proper motion) and a
Bayesian match of guest stars against supernova remnants.

Layout:

- `src/` — the verified library (Verus):
  - `models.rs` — the response envelope (`ApiResponse`) and the plain request/record types;
  - `replies.rs` — the status and envelope a handler answers with, and the mansion-number check;
  - `star_query.rs` — the star-search SQL text and the order of its bind parameters;
  - `decimal.rs` — decimal rendering of placeholder numbers;
  - `match_flow.rs` — the decisions of the two match endpoints as a state machine;
  - `astronomy.rs` — the lunar-mansion table row and the trajectory sample count;
  - `matching.rs` — the verbal grade record of a match candidate.
- `app/` — the server: HTTP routing (actix-web), PostgreSQL access, and all
  floating-point astronomy and likelihood computations, which call into the library.
- `tests/` — tests of the library.
