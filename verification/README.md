# polymarket_arb_bot

A dump-and-hedge paper-trading bot for 15-minute BTC Up/Down markets, with
its decision logic verified in Verus.

- `src/` is the verified library: the round state machine of the bot and its
  trade log (`trader`), the sliding price window used for dump detection
  (`history`), the choice of quotes a price is read from (`pricing`), trade
  and state labels (`models`), configuration defaults (`config`) and the
  clock arithmetic of the trading loop (`schedule`).
- `app/` is the program around it: configuration loading, the floating-point
  price arithmetic that feeds the state machine its observations, the market
  simulator, the web dashboard and the trading loop.
- `tests/` exercises the library on concrete values.
