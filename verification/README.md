# solar_relay

Decision logic of a unit that puts a load on the grid or on a solar inverter, through
two relays that must never be closed together.

`src/` is the library, verified with Verus:

- `relay`, `watchdog`: the controller of the relays and a changeover, action by action
- `auto`, `tick`: the automatic changeover, from the measurements to the decision and
  what follows once it was carried out
- `state`, `sensors`, `ups`: what is measured, and the last five minutes of it
- `weather`, `db`, `history`, `recorder`: what is exchanged with the weather service
  and the database
- `routes`: what clients are answered
- `clock`, `decimal`, `text`: points in time, fixed-point quantities, text
- `relay_laws`, `auto_laws`, `state_laws`: what holds of the unit as a whole

Quantities are whole numbers of millionths of their unit: 24.8 V is `24_800_000`.

`app/` is the service around it: it drives the pins, polls the sensors, talks to the
database and the weather service, and answers over HTTP. `tests/` holds the tests of
the library.
