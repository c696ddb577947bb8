# robot_car

Verified decision logic of a Wi-Fi controlled robot car (RP2350 Pico with a
CYW43 Wi-Fi chip, embassy). The library in `src/` decides; `app/` is the firmware that reads
the pins, sensors, timers and the TCP socket and carries the decisions out.

- `movement`: command codes, H-bridge input levels, the per-round motor
  decision that stops in front of obstacles.
- `sensors`: obstacle flags and the nearest distance from the four
  ultrasonic sensors.
- `buzzer`: beep timing for the nearest distance.
- `pulses`: wheel encoder pulse counting.
- `protocol`: the TCP text commands and the `Executed: ...` replies.
- `safety`: properties that span the sensor, movement and buzzer tasks.
