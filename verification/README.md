# board_drivers

Drivers for three parts of a small ESP32-C6 board — the JD9853 172x320 SPI
panel, the AXS5106 touch controller and the QMI8658 motion sensor — and the
screen logic of the demo firmware that uses them, verified with Verus.

## Layout

- `src/` — the verified library.
  - `bus.rs`: the operations a driver plans (pin levels, SPI writes, I2C
    transfers, pauses), the `Step` of a multi-transfer I2C procedure, and
    `PlanRun`, which hands a plan out operation by operation and stops it at
    the first failure.
  - `jd9853.rs`, `axs5106.rs`, `qmi8658.rs`: the drivers. Each method returns
    the exact plan of bus work as plain values; I2C procedures that depend on
    what was read continue with `resume`, and the panel's initialisation
    continues entry by entry with `init_step`. Contracts state every plan over spec
    functions (`init_ops`, `window_ops`, `fill_ops`, `frame_ops`,
    `sensor_resume`, ...).
  - `geometry.rs`: points and rectangles, with the two rectangle queries taken
    from `embedded-graphics-core`.
  - `touch_demo.rs`, `font_demo.rs`, `qr_demo.rs`: the demo logic — ball
    placement and the per-round redraw decision, glyph cells and scaled
    drawing, QR symbol placement, QR encoding through `embedded-qr`, and the
    handling of texts written over BLE.
- `app/` — the unverified side: executors that perform the plans on
  `embedded-hal` / `embedded-hal-async` buses, blocking and async front-ends
  with the usual driver methods, the panel as an `embedded-graphics` draw
  target, a scaling draw target, and the demo drawing.
- `tests/` — tests of the library on concrete values.

Laws of the library are the `law_*` proof functions in each module.
