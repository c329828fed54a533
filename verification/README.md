# splat_site

The logic of the splat.site embed server, verified with Verus.

- `src/` is the library: HTML escaping, `#RRGGBB` colours, the schedule and
  weapon pages (filled from page templates with `strfmt`), the refresh rules
  of the schedule cache, the listening port, and the file names of saved
  images. Each public function carries a contract; the laws of the library
  (escaping reads back, colours read back, fresh schedules are not fetched
  again, ...) are proof functions beside the code they are about.
- `app/` is the server around it: command line (clap), routes (axum), the
  HTTP client (reqwest), the cache lock (tokio), the API JSON (serde), the
  random weapon draw (urng) and the page templates read from `assets/html/`.
- `tests/` runs the library on concrete values.
