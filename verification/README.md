# lights

A command-line controller for Philips Hue lights, built around a library
whose behaviour is proved with Verus.

* `src/` — the verified library: which lights and groups a command
  addresses (`selection`, `light_actions`, `group_actions`), the requests
  sent to the bridge (`requests`), the pairing conversation (`utils`), the
  bridge's data (`structs`, `idmap`, `json`) and search patterns (`pattern`).
* `app/` — the program around it: command line, configuration file, HTTP.
* `tests/` — tests of the library.
