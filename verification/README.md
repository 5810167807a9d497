# open-tethyr

A toolkit for the Agent Discovery Exchange (AX) protocol: AX records and their
validation and generation from YAML configuration, OAuth provider templates, DNS-based
discovery of cache endpoints, a hierarchical document cache with LRU eviction, domain
policies and per-client rate limiting, and an HTTP cache server.

## Layout

- `src/` is the library, written in Verus. Its functions carry contracts (those that
  only read the clock, where nothing can be promised of the value, carry none), and the
  properties that span several functions (what a read of the cache gives back after a
  write, which entries an insertion keeps, that clients' rate limits are independent,
  that inheriting configuration defaults is idempotent, that the two record validators
  agree, and others) are stated and proved as `law_*` proof functions next to the code
  they are about.
  - `ax`: records, their validation and their generation from configuration.
  - `auth`: OAuth provider templates and the registry that looks them up.
  - `cache`: counters, `Cache-Control` handling, the LRU cache (`lru::LruCache`), and the
    coordination of local cache, root cache and direct fetches.
  - `config`: configuration models, inheritance of defaults, validation.
  - `policy`: domain policies and token-bucket rate limiting.
  - `server`: the cache server's state, request handlers and error replies.
  - `dns`, `http`, `client`: what discovery fetches and how its failures read.
  - `cli`: what each command of the command-line tool decides and prints.
  - `logging`, `json`, `text`, `net`, `clock`, `error`: supporting pieces.
- `app/` is the command-line program around the library: argument parsing, files,
  HTTP and DNS requests, the axum server, the tracing subscriber, and the parts that
  work on floating-point numbers.
- `tests/` exercises the library.
