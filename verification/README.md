# broker

A real-time, insert-only event API: users are created and log in with a
bcrypt-hashed password, logged-in users insert events with a collection, a
name, a timestamp and JSON data, and events whose time has come are published
on a server-sent event stream, the latest event of each name becoming the
current value of that name.

- `src/` is the verified library: the key scheme of the store, user creation
  and login, login tokens and authorization headers, event insertion,
  listing, cancellation and publishing, the JSON replies, the status of each
  route's answer, and the HTTP method filters. `src/laws.rs` holds the properties that span these
  operations.
- `app/main.rs` is the server around it: HTTP routes and CORS, the embedded
  database, the event stream and the command line.
- `tests/` exercises the library on concrete values.
