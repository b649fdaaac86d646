# horn_service

The request logic of a vehicle horn service, verified with Verus.

- `src/request.rs` — horn requests: mode, sequences and on/off cycles.
- `src/plan.rs` — the actuator steps that carry out a request, and the layout
  of sequenced plans.
- `src/horn_service.rs` — the horn service that turns requests into actuator commands.
- `src/kuksa_relay.rs` — the relay that hands out the steps of one request at a
  time; a new message stops the running request and is carried out in its
  place, a closed channel stops the relay.
- `src/actuator.rs`, `src/server.rs`, `src/uri.rs`, `src/config.rs` — the
  terminal and databroker outputs, the choice of connection, resource URIs
  and the software horn's settings.
- `app/` — the service binary: uProtocol RPC endpoints, channels, timers,
  the Kuksa databroker client and command-line parsing.
