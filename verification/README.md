# studycycle_api

The decision layer of the StudyCycle HTTP API, verified with Verus.

Each endpoint of the API reads rows, runs shared guards (account validity,
admin or moderator rights, private-instance rules, length and slur checks),
decides, and writes.  `src/` holds the deciding part as plain functions: they
take the values that were read and the outcome of each guard, and return
either the error the endpoint answers with or what it then writes: the
values of the fields it sets, the modlog entry it adds, and the values that
the federation activity it sends carries.  Their contracts state, for every
input, which of the two comes out.  An activity that only names rows read
from the database (an updated comment or community) is sent by `app/`.

- `src/error.rs` — the error type and the guards.
- `src/comment.rs`, `community.rs`, `federation.rs`, `local_user.rs`,
  `post.rs`, `reports.rs`, `site.rs`, `crud.rs` — one function per endpoint
  that decides something.
- `src/modlog.rs`, `src/time.rs`, `src/field.rs` — modlog entries,
  timestamps, and the rule by which optional text fields are updated.
- `src/outside.rs` — the calls into `bcrypt`, `url`, `chrono` and
  `str::to_lowercase`, each behind a trusted wrapper whose contract is
  written down there.
- `src/laws.rs` — properties that span endpoints or calls, proved.
- `tests/` — the endpoints on concrete values.
- `app/` — the actix-web handlers that read, run the guards, call the
  library and write.  They use the project's database and utility crates.
