# udsactor

The verified core of the UDS actor (the agent that runs on virtual desktops
managed by a UDS broker), written in Verus.

`src/` holds the logic with its contracts and proofs:

- `logging`: log levels, component kinds, the settings derived when logging
  is set up (levels, file names, stderr output, default directories),
  log rotation plans and log message assembly.
- `flood`: the guard that limits forwarded log events per time window.
- `forward`: the layer that forwards service log events to the broker.
- `eventlog`: Windows event-log report types, UTF-16 encoding, registry
  values and the event source's life cycle.
- `config`: the actor configuration and the decisions of the configuration
  tools (forms, validation, registration, authenticator lists).
- `rest`, `http`: the client's REST session and the HTTP bodies.
- `tasks`: the deadline, idle and logind session monitors as step functions.
- `workers`: pre-connect handling, retries with back-off, command lines.
- `domain`: host and realm names and the realm join decisions on Linux.
- `calls`: a call recorder and recording stand-ins for platform services.
- `version`: version numbers and build day counts.
- `platform`, `text`: the service bundle and string helpers.

`app/` is the runtime around it (tracing layers, HTTP client and servers,
signals, D-Bus, processes); `tests/` exercises the library.
