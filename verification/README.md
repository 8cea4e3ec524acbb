# esp-csi-cli

The command line of an ESP32 CSI collection node, with its logic verified by
Verus.

- `src/` is the verified library: the runtime configuration and its defaults
  (`config`), the command grammar and what each command does to the
  configuration (`commands`, with `args`, `text` and `mac` for reading
  arguments), the quote-aware line preprocessor between the serial console and
  the command runner (`editor`), and the plan a collection run is built from
  (`run`), and the feature list of the `info` report (`info`). `bounded` declares the `heapless` containers the library keeps its
  text in.
- `tests/` runs the library on concrete command lines.
- `app/` is the firmware around it: start-up, the serial console, the menu
  wiring, printing, and the calls into the radio and the CSI engine.
