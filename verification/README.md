# microbit_car

Verified logic for a wireless Mecanum-wheel car built from two micro:bit v2
boards: a controller in the hand and a car on the floor, linked by IEEE 802.15.4
radio.

- `src/` is the library. Every function in it, but for the three of the clock, is
  checked by Verus against its contract. It computes and decides on plain values: frames, sensor counts,
  button levels, clock ticks.
- `app/` is the firmware around it: peripherals, timers and tasks. `ROLE` in
  `app/main.rs` selects the board.
- `tests/` runs the library on concrete values.

## What is proved

- **Protocol.** What a receiver reads out of a frame is the packet that was sent.
  Truncated and foreign frames are rejected, and so is a frame with one corrupted
  byte, unless that byte is the length.
- **Motors.** The wheel mix is bounded, keeps directions and is symmetric. The
  PWM chip runs every motor at its target after the writes of a command, a
  stopped motor being switched full off, and a repeated command writes nothing.
- **Failsafe.** After a lost link the car stands until the next command; in
  failsafe every motor is at rest; a command expires 60 ms after it arrived. A
  controller that is held perfectly still repeats its command every 200 ms only,
  so the car pauses in between.
- **Sticks, tilt and buttons.** Outputs stay within range, a released stick comes
  to exactly zero, ramps reach their target, a press counts once.
- **Link.** Replies bring the link up, one lost reply does not take it down.
  Packets are numbered without a gap, and only changes of the link are shown. An
  emergency stop is tried five times, any other packet three times.
- **LEDs.** A WS2812 bit stream tells the colours it was made from.

## What is trusted

`src/clock.rs` is the only boundary: it reads the clock of `embassy-time` and
converts milliseconds to ticks of 1/32768 s.
