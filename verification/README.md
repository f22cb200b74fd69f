# telemetry_scheduler

The decision logic of a nightly telemetry scheduler for building-automation devices
(DAC, DUT, DAL, DMT, DRI, DMA, energy meters and water meters), written in Verus and
proved against its contracts.

- `src/telemetry_payloads/`: unpacking of telemetry packs (timing of each reading, its
  place in the requested window, field checks), the ring buffer that L1 calculators keep
  their history in, the timing of the L1 calculators (gap filling, majority vote, warm-up
  and reset of the suction-temperature rule), and reading of JSON properties.
- `src/schedules/`: what the scheduler decides before it writes to the database: whether a
  stored client, unit, asset, machine or circuit is current, how consumption gaps are
  shared out, demand and parameter time slots, water forecasts and history rows.
- `src/models/`: the rows and device descriptions the logic works on, and an exact decimal
  that stands for `rust_decimal::Decimal`.
- `app/`: serde representations of these types, the floating-point L1 rules and the
  callback adapters around the library.
