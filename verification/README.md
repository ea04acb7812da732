# Warehouse management system backend

The rules of a warehouse management HTTP backend, as a library whose
behaviour is stated in contracts and proved with Verus, and the parts of
the server around it.

- `src/` — the verified library: role-based access control and the
  route permission table, configuration read from environment variables
  (including the format of the PASETO key and the Redis URL list), error
  codes and client messages, paging and sorting of list requests, search
  terms for the database, request body checks, cache key naming, the
  signing of image-host requests, and the small decisions of the request
  handlers (cookies, delete modes, upload checks, health).
- `tests/` — tests of the library on concrete values.
- `app/` — server code: environment, logging, the PostgreSQL and Redis
  pools, the SQL statements of the repositories, the image-host client,
  the request-id and logging middleware, the photo upload reader, the
  cookie helpers, and the router. It moves data and leaves the decisions
  to the library.

## What the server does not contain

The service layer, the shared application state, the PASETO token
functions, the custom validators (phone, password strength, role) and the
table of error codes are not part of this project's sources. Without
them the router serves only `/api/v1/ping` and `/api/v1/health`: the
authentication, user, role, warehouse and upload routes and the
authentication middleware are not mounted. The library functions those
routes would use (`authorize`, `require_roles`, `extract_bearer_token`,
`auth_user_from_claims`, `delete_mode`, the request body checks, the
cookie helpers) are verified and tested, and `app/` holds the repository,
upload and cookie code they would call, but nothing started from `main`
reaches them yet.

The warehouse phone rule (`is_indonesian_phone`) and the error code
strings are this project's own definitions, read from the messages and
names that refer to them.
