# agent-core

The core of the Escluse agent: protocol types, configuration, health
(circuit breaker, retry decisions, health checks), security (task tokens,
rate limiting, audit entries), the event bus, the capability registry, the
task queue, and the operational helpers for backups, RCON consoles, SSH
sessions and container runtimes.

- `src/` is the library, verified with Verus: each public function states
  what it returns or changes, and the laws of the library (what the circuit
  breaker, the rate limiter, the queue, the configuration loader and the
  wire formats promise) are proved as public proof functions. The event
  bus and the health monitor send on tokio broadcast channels; each sending
  handle carries the channel it belongs to and the values handed to it, and
  the contracts speak of those.
- `tests/` exercises the library with concrete values.
- `app/` is the program side: reading the environment and files, network
  and process I/O, timers, and the serde forms of the messages. It hands
  plain values to the library and sends on what comes back.
