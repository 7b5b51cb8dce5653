# kroki

A diagram platform core whose logic is verified with Verus: diagram providers
as step machines (each command-line tool run is a step the caller performs), a
case-insensitive provider registry, the capability registry, configuration
defaults and environment overrides, circuit breaking, token-bucket rate
limiting, API-key authentication, SVG conversion to PNG/WebP, the GET-URL text
encoding, custom-font caching decisions and browser-recycling decisions.

Layout:

- `src/` — the verified library. `laws.rs` states properties that span calls
  (circuit-breaker transitions, token-bucket refill and burst, recycling,
  configuration overrides, registry lookups, blank-source refusal).
- `tests/` — tests of the library on concrete values.
- `app/` — the program around it: command-line parsing, process execution,
  file and network I/O, the HTTP server and its middleware. `kroki serve`
  starts the server; every other invocation is the command line.

Design notes:

- Registries and the engine URL table are association lists (`Vec` of
  key/value pairs, no key twice; `src/assoc.rs`) rather than `HashMap`s keyed by
  `String`: with text keys Verus proves little about std's hash maps, while the
  list's view is an exact `Map` with proved insert and lookup.
- The diagram registry holds the closed `Provider` enum of the built-in
  providers rather than trait objects: Verus does not accept the unsizing
  cast to `dyn DiagramProvider`, so custom provider types cannot be
  registered.
- Client addresses are parsed from headers with `std::net` in `app/`; the
  library takes the parsed addresses and picks the one to count.
