# jiecang-handset-controller

A verified library for driving a Jiecang-style desk handset.

- `src/display.rs`: display commands and their four-byte packets, with proofs
  that a height packet carries its height and that packets tell commands apart.
- `src/buttons.rs`: decoding of the four button lines into readings, and a
  tracker that turns readings into press and release events; proofs of the
  mask round trips and that every release follows the press of its button.
- `src/controller.rs`: a typestate controller over display and buttons.
- `src/handset.rs`: the height and preset state machine of the handset
  firmware, one tick at a time, with proofs that the height stays within its
  limits, that saved presets are recalled, and of the start-up sequence.
- `app/main.rs`: the ESP32-C6 firmware around the library (pins, UART, timer,
  logging).
- `tests/`: scenario tests.
