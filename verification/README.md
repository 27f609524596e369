# ravenserver

The logic of a theme repository server, verified with Verus.

- `src/` is the library: the stored documents (`themes`), the answers of
  each route once its database lookups are done (`routes`, `metadata`,
  `users`, `auth`), the page contexts and how themes are shown in listings
  (`rendering`), the download table and counter (`downloads`), the error
  values and statuses (`error`), and text helpers (`text`). Password
  hashing, digests, URL query decoding, JSON web tokens, the JSON table of
  download counts and the clock come from outside crates through the small
  trusted functions of `hashing`, `auth`, `downloads` and `clock`.
- `app/` is the web server around it: the Rocket routes, the MongoDB
  queries, serde copies of the documents, and file I/O.
- `tests/` exercise the library on concrete values.
