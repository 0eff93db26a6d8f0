# misa

Control core of a quadruped robot, written in Verus.

The library decides; it does no I/O and no floating-point arithmetic. Numbers
that a robot measures are carried as bit patterns and compared exactly; sums and
kinematics come in as arguments, and every function states what it does with them.

- `src/` – the library. `axis`, `command`, `observation`, `intent`, `safety`,
  `record` and `time` are the vocabulary that everything shares. `controller`,
  `knee`, `footwork`, `balance`, `parking`, `posture` and `targets` move the
  robot. `runner`, `rehearsal`, `replay` and `recording` are the loops and the
  logs. `bridge`, `serial` and `simulated` are the exchange with a robot, real or
  not; `pilot` and `keys` are where intent comes from; `config`, `cli` and
  `dispatch` are the way in.
- `tests/` – the library from outside, on concrete values.
- `app/` – the program around it: terminals, files, threads, the physics and
  gait libraries, and all floating-point arithmetic. Built with the features
  `model`, `serial`, `ros2` and `sim` it drives what they name.

A few statements are proved of the library as a whole, as public proof
functions beside what they speak of. Some of them: an unread robot is never
armed, nothing is sent that has not been through the safety gate, knees turn
only in the air, a leg that stands is not moved while another is lifted, going
limp takes effect from any state, a lost link never makes the robot more active,
and what was recorded comes back.
