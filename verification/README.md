# radyo_fenomen

A player for the stations of Radyo Fenomen: a web front end that lists the
stations and plays their streams, and a desktop side that fetches from the
station service.

- `src/` is the verified library (Verus): the service's records (`types`),
  text operations (`text`), image addresses and button labels (`utils`),
  style classes (`styles`), what the page shows of the stations (`catalog`),
  the player's state machine (`player`), the replies the front end reads
  (`api`) and the requests the desktop side sends (`backend`).
- `app/` is the unverified program around it: the Yew component, the calls
  into JavaScript and the HTTP requests, performing what the library decides.
- `tests/` runs the library on concrete values.
