# sone_commands

The command layer of a desktop client for a music streaming service, with its
decisions proved in Verus.

- `src/cache.rs`: the cache metadata, the cache file names, and the state
  machine that decides, for the home page, its refresh and the favourite
  artists, when the disk cache answers and when the service is called and its
  answer cached.
- `src/cache_laws.rs`: what every run of that machine keeps.
- `src/json.rs`: the JSON model that the diagnostic report reads.
- `src/page_debug.rs`: the endpoints, requests and text of the diagnostic
  report on the page endpoints.
- `src/text.rs`: decimal numbers, padding and quoting.
- `app/`: the Tauri commands, which do the network and disk work and run the
  library's machine.
- `tests/`: the library's tests.
