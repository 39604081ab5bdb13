# orchestrator_service

The control plane of a trading system: operation modes and the kill switch,
service health, sagas and workflows, policies, circuit breakers, rate limits
and idempotency, and the journal from which all of it is restored.

- `src/` is the library, written in Verus. Each public function states in its
  contract what it returns or changes, and the laws that relate several
  functions (`law_*` proof functions) are proved there: restoring the mode
  from the journal of a whole history of changes gives the mode reached,
  replaying a saga run's journal of starts and advances gives the run as it
  stands (compensation excepted), a read after a write gives what was
  written, a breaker opens at its threshold and blocks until its cooldown, a
  rate window admits its limit plus its burst, what the bus frames is what it
  reads back, and so on.
- `tests/` runs the library on concrete values.
- `app/` is the runtime around it: the asynchronous services, the journal
  file, the ZeroMQ bus, HTTP health probes, Prometheus metrics, the
  configuration file, and the policies and back-off that work in floating
  point.
