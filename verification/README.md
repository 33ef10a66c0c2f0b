# eebus

EEBUS use cases as verified state machines and payload rules: the limitation of power
consumption and production, the monitoring of electricity and temperatures, and the
configuration of heating, hot water and cooling.

Every function of the library carries a contract that states exactly what it returns or
changes, and Verus proves it. What holds across functions stands beside them as `law_*`
proof functions.

## Layout

* `src/model.rs`, `src/spine.rs`, `src/address.rs`: payloads, discovery data, and the queue
  of commands that actors fill and an application empties.
* `src/usecases/limitation/`: the Controllable System, its Energy Guard, and the record of
  limit writes (`lpc`, `lpp`).
* `src/usecases/monitoring/`: units that measure and appliances that read (`mgcp`, `mob`,
  `moi`).
* `src/usecases/hvac/`: operation modes, setpoints and thermometers (`cdsf`, `cdt`, `crct`,
  `mdsf`, `mdt`, `mot`, `mrcsf`, `mrt`).
* `src/assoc.rs`, `src/seqs.rs`, `src/text.rs`, `src/number.rs`, `src/time.rs`: the
  foundations.
* `tests/`: the library in use.
* `app/`: floating-point values, storable records and error types around the library.

## Conventions

Physical values are exact to the thousandth (`Number`); spans and instants are counted in
nanoseconds (`Duration`). No function reads a clock or a socket: instants are passed in, and
what is to be sent is queued on the `Engine`.
