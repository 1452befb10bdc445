# signal_visualizer

Verified core of an MSGEQ7 audio spectrum visualizer for an Arduino Uno with
an ST7789 screen.

- `src/normalize.rs`: maps every raw band reading onto a 0..=1024 scale, by its own calibrated window.
- `src/reader.rs`: the MSGEQ7 reset/strobe state machine, as a step function
  from state and time to next state and pin action.
- `src/clock.rs`: the millisecond counter advanced by the timer interrupt.
- `src/display.rs`: bar graph geometry and the rectangles that redraw a bar.
- `src/color.rs`: RGB565 words of the bar and background colours.
- `app/main.rs`: the firmware: peripherals, interrupt, and the main loop that
  performs the actions the library decides.
