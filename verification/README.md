# forza_dualsense

Adaptive-trigger feedback for Forza Horizon's "Data Out" telemetry on the
Sony DualSense controller, with the decision logic verified in Verus.

## Layout

- `src/` — the verified library:
  - `telemetry.rs`: decoding of the dash UDP packet (float fields kept as
    their IEEE-754 bit patterns);
  - `triggers.rs`: trigger effects and their 11-byte firmware encoding,
    including the zone bit packing and its read-back law;
  - `controller.rs`: the per-tick L2/R2 effect chain (gear-shift bursts,
    ABS pulse, rev-limit hold, wall hysteresis, resistance) as a state
    machine over a caller-supplied clock and float-derived frame facts;
  - `hid.rs`: the USB/Bluetooth output report layout with its CRC32
    (through `crc32fast`), input-report and probe decoding, and the drain that keeps the
    freshest press;
  - `hid_task.rs`: the reconnect supervisor's status and next move,
    tick cadence, telemetry-loss detection, the startup pulse and the
    reports each tick of a session sends;
  - `logs.rs`: the bounded log ring fed with arbitrary text chunks;
  - `settings.rs`, `state.rs`, `update.rs`, `gui.rs`: tunables, status
    values and the text the interfaces show.
- `app/` — the program around it: UDP listener, HID device I/O, web
  server, settings persistence, self-update, and the floating-point
  evaluation (speed, RPM ratio, slip, brake curve, redline rumble).
- `tests/` — tests of the library on concrete values.
