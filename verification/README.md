# workshop_led

The logic of a family of small embedded LED projects, written in Verus and proved against
its contracts:

- `color`: the three LED colors, their names (`red`, `green`, `blue`) and one-byte codes (0, 1, 2).
- `pins`: pin levels and a fallible output pin abstraction.
- `tricolor`: a tri-color LED whose pins always show its state (at most one channel lit), and
  the controller that blinks it on every tick and changes its color on request. Each change
  comes with the pin writes that carry it out, in order: the old color's pin goes low before
  the new color's pin goes high, so no two channels are ever lit at once.
- `pin_led`: the same over LEDs behind fallible pins (active-high LEDs, a tri-color LED made of
  three of them, and its controller).
- `lamp`: the gesture toggled lamp (off, red, green, blue, white, off, ...), and its
  debouncing: only the first gesture of a swipe counts, until a second passes without one.
- `gesture`: gesture datasets from the APDS-9960 FIFO and telling gestures from noise.
- `sensing`: the proximity traffic light and the night light.
- `ble`: the BLE advertising data, the device name and the handling of color writes.
- `webserver`: the `POST /color/<name>` answer and the numbering of connection runners.
- `wifi`: the WiFi (re)connection loop as a state machine, and the network stack seed.

`app/` holds the firmware glue for the Raspberry Pi Pico 2 W (hardware, network stack,
Bluetooth stack, executor), which hands plain values to the library and applies its answers.
