# tdog

A library for downloading a Stripe account into a SQL database, with its logic proved
by Verus, and a thin command line around it.

- `src/types.rs`, `src/req_params.rs`, `src/responses.rs`: the Stripe API data model
  (objects, list request parameters, list responses), with the pagination traits of
  `src/paging.rs` implemented for every list request and response.
- `src/queue.rs`: the request queue that starts waiting requests in priority order, at
  most a fixed number per one-second window.
- `src/apply_events.rs`: how Stripe events are collected, checked and turned into table
  writes.
- `src/download.rs`: the list requests of a full download and the bookkeeping between them.
- `src/config.rs`, `src/log_config.rs`, `src/dates.rs`: the configuration, the command line,
  the logging rules and the date formats.
- `src/outside.rs`: the calls into outside crates, each behind a wrapper whose contract is
  trusted.
- `app/`: the executable: reading the arguments and the JSON configuration, the `log`
  backend, and the scheduler loop that drives the queue.

The Stripe HTTP client and the database layer that carry out a download are not part of
this crate. The command line reads and checks its configuration, sets up logging and then
stops with an error: it downloads nothing.
