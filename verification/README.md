# adbuy_core

The verified core of an ad-buying campaign system: a campaign server that
redirects visitors through funnels, a CouchDB helper service that creates
per-account databases, and a browser client that edits funnel matrices and
replicates visits with PouchDB.

- `src/` is the library, written in Verus: every function carries a
  contract, and the laws that tie functions together are stated as public
  proof functions (their names begin with `law_`).
- `tests/` exercises the library on concrete values.
- `app/` is the thin layer around it: the couch app's HTTP handlers, the
  CouchDB and couch-app HTTP clients, and the serialised forms of the
  library's types. The campaign server's handlers and the browser client
  are not in it: they rest on a shared engine crate, a database, a cache
  server and browser bindings that this project does not carry; their
  decisions are in `src/`.
