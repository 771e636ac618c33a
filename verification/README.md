# gworkerd

A worker that takes shell jobs from a STOMP queue, runs each one with `sh -c` in the
directory the job names, stores the result in MySQL and shows the results on a
password-protected web monitor.

## Layout

- `src/` is the library, verified with Verus:
  - `uuid.rs`: the byte order in which job ids are stored, with the proofs that
    reordering and restoring undo each other;
  - `clock.rs`: points in time and their text forms (through `chrono`);
  - `worker.rs`, `processor.rs`: requests, responses, records, and how a run is reported;
  - `record_backend.rs`, `result_backend.rs`: what is written to and read from the
    results table, and what each query's outcome is answered;
  - `consumer.rs`, `basic_consumer.rs`: the queue session, subscription and
    acknowledgement rules;
  - `monitor.rs`, `basic_monitor.rs`: who may see the monitor and what each request
    is answered;
  - `config.rs`, `text.rs`: the configuration file's shape and UTF-8 helpers.
- `app/` is the daemon: command line, configuration file, logging, threads, and the
  network and database work (STOMP, MySQL, Iron).
- `tests/` runs the library on concrete values.

## Running

```
$ gworkerd config.json
```

The configuration file holds `threads`, `log` (`directory`, `levels`), `stomp`
(`address`, `port`, `host`, `username`, `password`, `topic`, `prefetch_count`,
`heartbeat`), `mysql` (`address`, `username`, `password`, `database`) and `monitor`
(`address`, `webapp_path`, `websockets`, `password`).
