# embassy-ch58x

Embassy runtime support for the WCH CH58x microcontrollers, with its drivers'
logic verified by Verus.

- `src/` is the verified library. Every driver is a set of steps on plain
  values: a step takes the driver's state and the registers it depends on, and
  gives the next state and the actions to perform.
  - `executor`: what the thread executor does next, and when it sleeps.
  - `interrupt`: the vector tables of CH582 and CH585 and the type-level binding
    of handlers.
  - `gpio`: interrupt-backed waits for input pins.
  - `time`: the one-microsecond SysTick time driver and its alarms.
  - `uart`: interrupt-driven transfers of UART0 to UART3.
  - `usb`: the USBFS device driver.
- `app/` is the hardware side: it reads registers, performs actions, wakes tasks
  and implements the traits of Embassy, `embedded-hal` and `embedded-io`. It
  needs the `ch58x-hal` crate and, in a firmware, `qingke-rt`.
- `tests/` runs the library on concrete values.
