# leg_motors

Control of the joint motors of a legged robot over CAN (RobStride private protocol),
with a ROS 2 bridge.

- `src/` is the verified library:
  - `model.rs`: the motor models and the names that denote them in the configuration;
  - `frame.rs`: CAN identifiers and frames as plain values, and the identifier
    range checks of `embedded-can`;
  - `motor.rs`: command frames (enable, disable, parameter write, run mode, MIT
    control) and the feedback decoder, with their byte and bit layouts;
  - `leg.rs`: the motors of one leg, their enable frames and the routing of
    received feedback to the motors it is addressed to;
  - `config.rs`: resolving a leg's motors against the motor table and the
    per-joint sign and zero-offset plan.
- `app/` is the program around it: YAML loading, the CAN socket, the async tasks,
  floating-point scaling of commands and feedback, and the ROS 2 publisher and
  subscriber.
- `tests/` exercises the library on concrete frames and configurations.
