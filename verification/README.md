# SuperTable

The core of SuperTable, a desktop database client for MySQL, PostgreSQL,
SQLite, Redis and MongoDB, written in Verus and proved against its contracts.

- `src/` — the verified library:
  - `i18n.rs`: every interface text in Chinese and English;
  - `data.rs`: saved connections, their endpoints and descriptions, and where
    the connections file lies;
  - `db.rs`: previews, and what reading one decides: addresses, statements,
    labels, the Redis value column, the rendering of SQL cells;
  - `grid.rs`: which rows the result grid shows (case-insensitive filter) and
    in which order (stable sort by a column);
  - `ui/app.rs`: the window state and every user action on it;
  - `ui/present.rs`: tones, row shades and small texts of the window;
  - `text.rs`: decimal rendering, port parsing, trimming, containment.
- `app/` — a terminal front end: reads and writes the connections file
  (serde_json) and reads previews from the databases (sqlx, redis, mongodb),
  handing the replies to the library.
- `tests/` — tests of the library on concrete values.
