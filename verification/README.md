# eutopic_api

The account service of the platform: an HTTP API that authenticates users by
bearer token, keeps their accounts in a relational store, reads the graph
database, and announces new users and deletion requests on a message queue.

`src/` is the verified library (Verus). It holds the logic of the service:

- `auth`: reading the access token out of an `Authorization` header, and the
  decisions of the authentication middleware;
- `config`: reading the settings (integer parsing, comma-separated origins);
- `endpoints::account`: each account endpoint as a machine that says what to
  do next (connect, read, encrypt, write, publish, reply) from what came of the
  previous step, with the deletion decisions and their laws in `flow`;
- `queue`: the queue settings and the encoded messages;
- `value`, `error`, `db`, `http`, `account`: graph database values and their
  JSON rendering, query results, query messages and metadata, replies.

`app/` is the program around it: the HTTP server and middleware, the database
actor, the queue producers, and the loop that carries out what each endpoint
machine asks for.
