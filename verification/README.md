# safeflight

The decision logic of a Raspberry Pi quadcopter flight stack, written in
Verus and proved against its contracts.

- `src/` is the verified library: which configured sensor model serves which
  measurement, the driver settings chosen for a poll rate, the decoding of raw
  sensor registers, motor pulse limits, the navigator's state machine, the
  conversion of GPS daemon reports into readings, and the schedules of the
  hardware and control loops. Laws that span several calls stand there as
  public proof functions.
- `app/` is the flight program around it: configuration files, the sensor
  drivers, the motor board, the GPS daemon, the threads, and the Kalman filter,
  which is floating-point arithmetic throughout.
- `tests/` runs the library on concrete values.
