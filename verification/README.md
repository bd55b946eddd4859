# teleop_twist_keyboard_rust

Keyboard teleoperation for ROS 2: keys read from the terminal become velocity
commands on `/cmd_vel`.

- `src/` is the verified decision logic. `velocity` ramps a level with the
  arrow keys, `bindings` holds the movement and speed key tables, `gain` keeps
  a top speed as counts of 10% steps, `teleop` is the state machine that one
  key press advances, `laws` states what holds over all keys and states,
  `terminal` computes the single-key terminal settings, and `wasd` is the
  simple WASD controller.
- `app/` is the node: terminal I/O, ROS publishing, and the conversion of the
  exact command into floating point values.

Levels are held exactly as ticks of 0.05 and top speeds as
`start · 1.1^up · 0.9^down`, so every contract states exact values.
