# spending_limits

Spending limits for card charges, and the exchange rates that limits across
currencies need. The library is verified with Verus: what each function returns
is stated in its contract and proved.

- `src/limits` decides whether a charge may proceed: the trigger rule, the
  circuit breaker that the charges of a process share, the questions to the
  limits provider and the signatures on them, the fail-mode, the records of a
  blocked charge, the settling of reservations, and what is counted of all this.
- `src/forex` keeps exchange rates: the feeds of three providers, the fallback
  from one to another, how old rates may get, and the task that renews them under
  a lock.
- `src/conversion.rs` converts amounts with a table of rates, and rounds up where
  an amount is counted against a limit.
- `src/currency.rs`, `src/decimal.rs`, `src/clock.rs`, `src/text.rs` and
  `src/secret.rs` hold the values that these work on.

Flows that call out alternate between the library and its caller: the library
takes what happened last and says what is to be done next. `app` holds such
callers, over HTTP and a shared store, and the wire formats.

Functions whose names begin with `law_` state what holds of several functions
together. Calls into other crates stand behind small functions whose contracts
are taken as given; each says which outside function it is about.
