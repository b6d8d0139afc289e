# voidreg_api

The backend of the Voidreg site — projects, engineering notes, a contact form
and a newsletter — with its rules written in Verus and proved.

- `src/` is the verified library:
  - `text` — character-level string work (`trim`, prefix and substring
    search, lexicographic order, `u16` parsing and decimal writing), each
    function specified over `Seq<char>`.
  - `api::v1` — checking contact forms and newsletter addresses.
  - `config` — settings from environment values, the CORS origin list and
    policy, the mail sender and bind address.
  - `domain` — projects, articles and the request and response bodies.
  - `db` — how stored rows become projects and articles, the listing order
    (with its laws: sorted, a permutation, featured-only), lookups, database
    targets, schema creation, subscriptions and seed rows.
  - `mail` — the mail that forwards a contact message.
  - `error` — request errors and their HTTP statuses.
- `app/` is the server around it: actix-web routes, the toasty store,
  Resend mail over reqwest, and the process (settings, signals, migration).
- `tests/` runs the library on concrete values.

When its store holds no project, the server seeds it at start-up from
`data/seed.toml`, read from its working directory; the file is not part
of this crate, and without it seeding an empty store fails.
