# ladrc_no_std

LADRC (linear active disturbance rejection control) controllers for embedded
control loops.

- `src/` is the verified library: `ConfigError`; `validation`, which decides
  from what validation reads of each parameter (finite or not, in range or not)
  which error a configuration is refused with, checking fields in a fixed
  order; and `timing`, the timestamps a controller remembers between updates
  and how an update in seconds or in integer milliseconds turns into a sample
  period, with the millisecond intervals computed exactly.
- `app/` holds the `f32` controllers themselves (observer, control law, output
  clamp, bandwidth tuning), which call the library for validation and timing.
- `tests/` exercises the library on concrete values.
