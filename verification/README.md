# actix_demo

A small actix-web service (greeting, echo, forwarding to a second service,
storing to-do items in SQLite, publishing to and consuming from Kafka with
trace-context propagation), written so that its decisions are verified with
Verus.

- `src/` is the verified library. It computes the answers, error reports,
  Kafka client configuration, Kafka record and header rewrite, and it drives
  the multi-step handlers (`/serviceb`, `/todo`) as state machines whose
  transitions are specified exactly. Calls into `rdkafka`, `uuid` and
  `std::str::from_utf8` stand behind small trusted wrappers whose contracts
  say what those functions do. Reading request header values as text (which
  fails on values that are not visible ASCII) happens in the HTTP layer.
- `app/` is the program around it: the HTTP server, the database, the Kafka
  client, the telemetry pipelines, and the serde/thiserror copies of the
  library's types.
- `tests/` runs the library on concrete values.
