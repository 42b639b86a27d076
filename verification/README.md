# dashboard

Decision logic of an experiment-control dashboard that gathers, for one
copper-clad board at a time, a vibration trace (over MQTT), two camera frames
(from a vision sidecar process) and a pass/fail label, and stores them as one
record with an inventory row.

- `src/` is the verified library: the dashboard state and its update rule
  (`dashboard`), properties across updates (`laws`), the record types
  (`types`), the sidecar protocol and frame decoding (`camera`), the MQTT
  reactions (`vibration`), the save layout (`save`) and text rules (`text`).
- `app/` is the program around it: the window, the worker processes and
  sockets, the disk writes and the CSV inventory.
- `tests/` exercises the library on concrete values.
