# gdble

Bluetooth Low Energy for Godot: a verified core library (`src/`) and the
Godot extension around it (`app/`).

## Layout

- `src/` — the library, verified with Verus.
  - `text`, `types`, `info`, `event`: identities (`DeviceId`, `GattKey`,
    canonical UUIDs), errors with stable codes, scan records, and the
    structured event protocol.
  - `scan`, `command`, `machine`: the core state machine that owns all BLE
    work. `CoreState::handle_command`, `handle_internal` and `shutdown` take
    a command or a result of background work and answer the effects to
    perform, each stated against a mathematical model of the core.
  - `laws`, `subscriptions`, `pumps`, `behaviour`, `adapter`, `identity`: properties
    proved across the core's steps — every accepted request ends with exactly
    one terminal event, subscriptions stay unambiguous, a device has at most
    one notification pump, requests run in submission order, a failed
    connect never counts as connected, a remote disconnect clears the
    device, the adapter's event stream is watched at most once, and each
    device has at most one scan record and one session.
  - `client`, `backend`, `android`: request normalization before
    submission, the backend's characteristic lookup and write-mode choice,
    and the Android bridge check.
  - `manager`, `device`: the main-thread caches of `BluetoothManager` and
    `BleDevice` and the projection of events onto the legacy signals.
  - `scanner`: the decisions of the standalone timed scanner.
- `tests/` — tests that drive the library, including the core through a
  synchronous fake backend.
- `app/` — the Godot classes, the Tokio worker that performs the core's
  effects, the btleplug backend, and the Android JNI entry point.
