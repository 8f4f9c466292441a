# tpt-ignis (verified core)

The logic of the TPT Ignis plasma-diagnostics suite, verified with Verus.

`src/` is the library; every function in it carries a contract that Verus
proves:

- `ui` — the target-agnostic widget tree: builders with AI metadata
  annotations, depth-first text extraction, pre-order id stamping, and the
  HTML devtools renderer, all stated over a sequence-of-nodes model.
  `ui_laws` proves what holds across these operations (ids are unique, id
  stamping keeps the text, splicing a tree appends its text and HTML, text
  and HTML follow concatenation, text reads no metadata and HTML no AI
  annotation).
- `text` — decimal formatting and HTML escaping (which reads back to the
  original text).
- `widgets`, `halo`, `oracle` — the layout of gauge readouts, dashboards,
  charts, the reactor overview and the plasma-state tree, and the request
  dispatch and replies of the agent protocol server (notifications get
  none).
- `topology` — the reactor's cooling-dependency graph and its failure
  cascade (exactly the components reachable from the failed one), and the
  query that mirrors it in the database with the start id quoted.
- `schema` — SQL DDL and the base64 text of the in-database function module.
- `udf` — the bump allocator and result packing of that module.
- `units` — unit newtypes over any numeric representation.
- `msgpack` — MessagePack error type and decoding interface.

`app/` holds the floating-point physics, signal processing and rasterising,
file and database I/O, serialization, and the command line. `tests/` runs
the library on concrete values.
