# fixerss

Scrapes web pages into RSS feeds. The library under `src/` is verified with
Verus; `app/` holds the programs around it (the axum feed server, the rocket
launcher and a one-shot scraper), which do the file, network and database
work and hand plain values to the library.

- `selector`: CSS selectors and what they select from a page (`scraper`).
- `config`, `settings`: the feed specification and the server's feed settings,
  the selection of item titles and descriptions.
- `table`: feeds by name, each name once.
- `item`: RSS items and their rendering as an RSS channel (`rss`, `chrono`).
- `use_case`: the decisions of a feed refresh, as a state machine, and the
  loading of stored items.
- `routes`, `server_config`, `schedule`: what the server answers, its
  configuration, and the spread of refresh times (`rand`).
