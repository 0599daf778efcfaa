# zed_flutter

The verified core of a Flutter companion extension for the Zed editor, written
in Verus.

- `src/args.rs` reads the command line of a `flutter run` / `test` / `attach`
  task: device and target flags, build mode, VM Service URI, the flags handed
  on to the flutter tool, and the program arguments after `--`.
- `src/platform.rs` models the rows of `flutter devices --machine` and infers
  the debug adapter's `platform` from a device.
- `src/devices.rs` chooses the device of a debug session from the persisted
  choice (`.zed/flutter_devices.json`, `.zed/flutter_device_id`) and the listed
  devices, and writes the choice back.
- `src/launch.rs` is the debug locator: from a task to the JSON configuration of
  a Dart adapter scenario of type `flutter`; also the FVM workspace
  configuration for the Dart language server.
- `src/dap.rs` builds the configuration handed to `flutter debug_adapter`,
  passing the Flutter fields of the user's configuration through.
- `src/quote.rs` quotes paths for `sh` and PowerShell.
- `src/json.rs` models JSON values and holds every trusted call into
  `serde_json`; `src/text.rs` holds the character-level string operations.

`app/lib.rs` is the Zed extension itself: the `zed::Extension` impl and the host
I/O (reading and writing files and running `flutter devices` through the host's
process API) that the library asks for.
