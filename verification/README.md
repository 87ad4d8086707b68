# a3c_soc_auth0_events

A service that receives Auth0 log-stream batches over HTTP and writes each
alert as one JSON record to a log4rs logger.

- `src/` is the verified library: the encoder (`log4rs.rs`, `encode.rs`), the
  bearer-token decision (`auth.rs`), the answer to an event (`event.rs`), the
  configuration choices (`settings.rs`), the body of a refusal
  (`response.rs`), and the `serde_json` calls they rest
  on (`json.rs`).
- `app/` is the program around it: the actix-web server and middleware, the
  reading of the command line, environment and configuration file, and the
  logger that writes the records.
- `tests/` runs the library on concrete values.
