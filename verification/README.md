# apca

A library for the Alpaca trading and market data APIs, whose logic is
verified with Verus.

- `src/` is the verified library: the request and response types of the
  endpoints, each endpoint's method, path, and evaluation of HTTP
  statuses; symbol parsing and printing; normalization of symbol lists;
  the handshakes of the market data and order update streams as state
  machines; the unfolding of message batches; time stamp and integer
  parsing; and the API information with its URLs. Contracts are stated
  over spec functions and views, and laws (round trips, negation,
  normalization) are proved as proof functions.
- `app/` is the input and output around it: the HTTP client, the
  websocket connections, the environment, and the JSON forms of the
  library's types.
- `tests/` exercises the library on concrete values.

Calls into outside crates (`chrono`, `url`, `uuid`, `http`, and the
`Display` texts of outside errors) stand behind small trusted wrappers
whose contracts name or state their results.
