# victron_solar

A widget showing live PV power and the solar yield (today, this month,
this year, with last month's and last year's totals) of a Victron Energy
system, read from Home Assistant in one request per poll.

- `src/` is the library, verified with Verus:
  - `template.rs`: which entity ids are accepted, the Jinja template they are
    spliced into, and the JSON keys the reply holds;
  - `request.rs`: the endpoint URL, the headers and the request of one poll;
  - `solar.rs`: the displayed readings and how a reply updates them;
  - `params.rs`: the manifest parameters, the keys that changed between two
    snapshots, and the version cache of the current snapshot;
  - `layout.rs`, `display.rs`: the size table and the yield blocks drawn.
- `app/` is the glue to the widget host (entry points, polling, parameter
  snapshots, rendering); it builds for the `wasm32` host only.
- `tests/` runs the library on concrete inputs.
