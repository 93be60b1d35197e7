# MeroAlpha Terminal

A terminal for tracking a local NEPSE portfolio against market data from the
MeroAlpha Data API: it imports holdings from a MeroShare CSV export, refreshes
their prices, and shows a market overview (indices, top movers, market status)
beside the portfolio's performance.

## Layout

- `src/` is the library, verified with Verus. Every public function states in
  its contract what it returns:
  - `text`, `numeric`, `csv`, `json`, `format`: character-level text operations,
    the decimal number grammar, CSV lines and fields, the JSON document model and the parse of
    response bodies (by `serde_json`),
    and the grouping of amounts in thousands.
  - `portfolio`: the holdings CSV import, settings normalization, and the
    in-memory holdings repository.
  - `meroalpha_api`: request paths, readers of the API's responses, and the
    client's addresses and authorization header.
  - `market_refresh`: the request sequences of a price refresh and of an
    Overview refresh, as state machines driven by the caller's replies.
  - `overview`, `terminal`, `components`: what the Overview page, the
    notifications, the price refresh button and the panels show.
- `app/` is the command-line program around the library: HTTP requests,
  the SQLite store, and the floating-point valuation and display
  of amounts.
- `tests/` exercises the library on concrete inputs.
