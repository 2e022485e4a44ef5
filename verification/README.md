# edge_tts_for_legado

A self-hosted HTTP text-to-speech bridge for the Legado reader, backed by
Microsoft Edge voices. The library under `src/` holds the service's logic,
verified with Verus; `app/` is the HTTP server around it.

- `src/config.rs`: the settings and their checks.
- `src/http/`: request headers, the origin a client used, token checks.
- `src/legado.rs`: Legado's request and profile shapes and its rate scale.
- `src/services/legado.rs`: the Legado "HTTP TTS" profile.
- `src/services/tts.rs`: request checks, Edge speak options, and the retry
  and time-budget decisions of a synthesis, taken one event at a time.
- `src/state.rs`: the state shared by the handlers.
- `src/error.rs`: the errors and the HTTP answers they get.
- `src/text.rs`: decimal rendering, white space, ASCII case, splitting.
- `app/`: settings loading (`config.toml`, `APP__*` variables), logging,
  routes, and the loop that calls Edge, waits and reads the clock.
