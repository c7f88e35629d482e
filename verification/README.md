# lykrysh

A show catalogue and chat board, with its logic verified in Verus.

- `src/` is the verified library: decimal text and trimming (`text`), the
  query parameters of a request (`query`), the session's upload and chat
  count (`session`), moments as chrono writes them (`time`), the page
  requests (`api`, `show::api`, `talk::api`), the queries on the shows table
  (`show::model`), and, in `db`, `show::db` and `talk::db`, one small machine
  per request that names the database queries to run and decides from each
  reply what comes next.
- `app/` is the web server around it: routes, templates, cookies and
  sessions, JSON, and the diesel queries that carry out what the machines ask.
- `tests/` runs the library on concrete values.
