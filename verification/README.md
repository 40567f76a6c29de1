# mpro

Thermal control engine for dual-socket Mac Pro 4,1 / 5,1 workstations on Linux.

- `src/` is the library, verified with Verus: the acoustic night window, the
  discrete alert rules and fan command bounds, the control loop's boost hold,
  acoustic ramp-down and alarm edges, the debounced status writer, the D-Bus
  override deduplication, the six-zone sysfs override plan, the decoding of
  raw sensor text and sysfs values, the webhook message and URL choice, and
  the `HH:MM:SS` clock text.
- `app/` is the program around it: command line, Tokio workers, zbus and
  reqwest calls, file and sensor I/O, and the floating-point parts (Kalman
  filter, hazard probabilities, physics terms and threshold comparisons).
- `tests/` runs the library on concrete values.
