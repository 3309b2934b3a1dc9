# woodox_lib

Firmware logic of the Woodox analog hall-effect keyboard, written in Verus
and proved against its contracts.

- `src/matrix`: the switch state machine (normal trigger with hysteresis,
  hold detection, rapid trigger), the scan order that maps multiplexer
  channels back to layout positions, and layered key resolution into the
  keyboard report.
- `src/layout`: dimensions, timing and the default switch wiring and keymap.
- `src/nkro`: switches that act on the keymap as soon as they change, with a
  report of one entry per keycode.
- `src/readout`: a plain readout of switch positions.
- `src/board`: decisions of a split keyboard half: the UART message format
  and role negotiation, USB bring-up, the scan schedule and the conversions
  of raw hardware readings.
- `app/`: the rp2350 hardware glue that performs those decisions (pins, ADC
  with DMA, UART, USB HID). It is ordinary Rust and not verified.

Switch readings become travel distances through a table measured for the
board's sensors (`layout::TravelTable`), corrected by each switch's offset.
The measured sensor curve itself is not part of this repository, so
`app/` takes the table as an argument and builds none; it holds the
hardware glue (scan, UART, USB) but no board start-up (`init`, interrupt
tasks), which needs the table. The switch and scan tests write their tables
out themselves.

Tap keys (`Key::LayerTap`, `Key::KeyTap`) act on their hold action once the
switch is held, and report their tap keycode for one report when the switch
went down and up again before that; one shot keycodes live in the upper half
of the report, which is cleared after every report.
