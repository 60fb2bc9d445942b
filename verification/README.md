# Cold-room temperature monitor

A terminal monitor for the cold room of a pharmaceutical store: four sensor zones,
a moving-average filter over the last readings of each sensor, threshold statuses
(normal, warning, danger, sensor error), automatic alarms and cooling/heating control,
and a session log.

* `src/` — the library, verified with Verus:
  * `controller.rs`: `StatusSuhu`, its labels and the threshold classification;
    `Controller` with its alarm counter and actuator commands, and the laws they obey.
  * `sensor.rs`: `Sensor` with its bounded history of the most recent readings.
  * `numerik.rs`: the window of the moving average.
  * `monitoring.rs`: `MonitoringSystem`, sessions (`start_session`, then
    `record_session` or `record_reading`) and the session log.
  Readings are a type parameter of the library; the program instantiates it with `f64`.
* `app/` — the terminal program: menus, keyboard input, printing, and the
  floating-point arithmetic (averages, statistics, calibration, threshold comparisons).
* `tests/` — tests of the library.
