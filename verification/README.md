# pandora

Board samples for the Pandora STM32L475 board, with their control logic
verified by Verus.

- `src/` is the library. Each sample is a state machine: it is told what the
  hardware reported (a key level, a serial event, an I2C reply) and returns
  what to do next (drive a pin, wait, read or write a register, report).
  - `fault`: the text reported on a hard fault.
  - `blinky`, `rgb`: the single LED and the RGB LED blink patterns.
  - `key`: the debounced key.
  - `echo`: the serial echo.
  - `icm20608`: configuration and sampling of the ICM20608 motion sensor.
- `app/` is the firmware: peripheral setup with `stm32l4xx-hal`, and the loop
  that carries out the library's decisions.
- `tests/` runs the state machines on concrete inputs.
