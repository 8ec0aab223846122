# stock_monitor

A service that watches Chinese stocks and indices: quotes, minutes, K-lines and money flows, and
analyses of them by large language models. Its logic is a library whose contracts are proved with
Verus.

- `src/` is the library: the codes of stocks, the reading of what the data services send, the caches,
  the list of what is watched, and the search for a model that answers.
- `app/` is the server around it: HTTP, the configuration file, and arithmetic in floating point.
- `tests/` runs the library on concrete values.

Numbers that the services send are kept in the library as the text that was sent. The server makes
floating-point numbers of them where it works something out or sends them on.

The server listens on port 9527 and keeps its configuration in `setting/config.json`, which it writes
with default values where there is none.
