# sensor

Counts people crossing doors. A camera beside each door posts tripwire
events; the device service turns them into counter rows and sensor rows in
a PostgREST database, keeps rows it could not upload in a local store, and
sends heartbeats. The dashboard serves the pages and a health endpoint that
checks every sensor's heartbeat and latest count.

- `src/` is the library, verified with Verus: the records and their
  conversions (`models`, `device::models`), the health checks
  (`handler::health`, `device::handler::health`), the asset and content-type
  rules, the store listing, and the per-door scan of latest counts.
- `app/` is the program around it: HTTP routing, database calls, JSON
  (de)serialisation, files and the clock.
- `tests/` runs the library on concrete values.
