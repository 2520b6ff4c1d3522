# iam_user

The user-profile service of an identity platform: a gRPC API over a Postgres
profile store, kept in sync with the identity service by a lifecycle-event
consumer.

- `src/` is the verified library (Verus):
  - `ids` — parsing and printing user ids (UUIDs);
  - `status` — RPC status codes and store failures;
  - `profile` — stored rows and the profile message, with RFC 3339 timestamps;
  - `listing` — pagination of the listing and its reply;
  - `service` — replies of the create/get/update/delete RPCs and the internal-token gate;
  - `consumer` — what to do with each lifecycle event: the store change, acknowledgement,
    retry and compensation after repeated failures;
  - `startup` — the bounded retry policy for reaching the database.
- `app/` is the service around it: database queries, event stream and broker
  plumbing, configuration and the server.
- `tests/` exercises the library on concrete values.
