# edifier

A verified library for controlling Edifier headphones, written in Verus.

- `src/` holds the library. Every function carries a contract that Verus
  proves: frame encoding and decoding (`packet`), commands and notifications
  (`command`, `notification`), device profiles (`profile`), settings files
  (`settings`), the LAN group (`key`, `mac`, `message`, `envelope`) and its
  audio handoff state machine (`handoff`), the JSON forms of all of these
  (`command_json`, `notify_json`, `action_json`, `profiles_json`,
  `event_json`), and the decisions of the platform Bluetooth adapters
  (`transport_audio`, `bluez`, `endpoint_audio`, `services`, `ble`, `addr`).
  Public proof functions named `law_*` state the properties that hold across
  calls.
- `tests/` exercises the library on concrete values.
- `app/` is the command-line tool: argument parsing, file reading and the
  serde forms of the JSON types.
