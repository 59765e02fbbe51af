# appinsights

A client library for Application Insights, with its logic verified by Verus.

- `src/` is the verified library:
  - `transmitter`: what the sender does with the server's answer to a batch
    (which items go out again, whether to wait), and the record of one
    submission;
  - `telemetry`: custom properties and context tags (a map from text to text
    with a proved merge), the well-known tag helpers, and severity levels;
  - `contracts`: the schema's data contracts that hold no measurements, their
    builders, and the names of envelopes;
  - `time`: durations and their `d.hh:mm:ss.fffffff` text form;
  - `uuid`: random identifiers and their hyphenated text form.
- `app/` holds what the library leaves out: HTTP, timers, the clock, and the
  telemetry items and contracts that carry floating-point measurements, with
  their JSON forms.
- `tests/` exercises the library.
