# maplibre_native pools

Two rendering pools that serialise MapLibre rendering through one worker
thread each.

- `src/` is the verified library: the decisions of the two workers as state
  machines (`tile_worker`, `static_worker`), the result a caller gets from one
  call (`client`), and the pools' error values (`error`). Each worker method
  takes the worker's state and the outcome of the last renderer call and says
  what to do next; the proof functions beside them state what holds across
  calls (style caching, one reply per request, no style reload in the static
  pool).
- `app/` holds the threads, channels and async calls that run those state
  machines against a renderer, and the error types with their `Display`.
- `tests/` runs the library on concrete values.
