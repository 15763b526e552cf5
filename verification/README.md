# roshar

Message types and subscription builders for crypto-exchange WebSocket feeds,
the rules that keep local order books in step with those feeds, and the
decision logic of a WebSocket connection manager, with their contracts
proved by Verus.

## Layout

- `src/` — the verified library.
  - `text.rs` — string building blocks (lower-casing, decimal rendering,
    quoting, prefix tests) with their specifications.
  - `aster`, `binance`, `bitget`, `bybit`, `coinbase`, `deribit`,
    `hyperliquid`, `kraken`, `kucoin`, `lighter`, `okx`, `pacifica`,
    `paradex`, `phoenix`, `polymarket` — payloads and request builders of
    each exchange.
  - `websocket_supported_exchanges.rs` — the frame each exchange expects for
    pings and subscriptions, its endpoint and timing defaults.
  - `exchanges/` — the order-book exchanges: request texts, the Binance
    snapshot/diff synchronisation state machine, ByBit, Kraken, Hyperliquid
    and MEXC book upkeep, snapshot-fetch retry rules, Hyperliquid info and
    exchange payloads, tick decimals.
  - `orderbook.rs`, `candle.rs` — order-book errors and candles.
  - `decimal.rs` — prices read as decimals and compared by value.
  - `ws_mgr/` — connection settings, the registry of connections and
    exchange channels, the connecting loop, the ping/read/write actor
    decisions, and the connection handlers with their dispatcher.
- `tests/` — tests run against the compiled library.
- `app/` — the runtime around the library: JSON text of requests, serde
  copies of payloads, floating-point price books, REST clients, and a tokio
  WebSocket manager.

## Not included

- The Hyperliquid order actions (create, cancel and modify orders, update
  leverage, schedule a cancel) sign with an Ethereum wallet through `ethers`
  and `hyperliquid_rust_sdk`, which this project does not build on. What
  comes before the signature is here: the schedule-cancel action and its
  time check, the connection id, and the agent message and its hash.
- The Kraken Futures and ByBit order-management clients: their signing
  modules are not part of this code base.
