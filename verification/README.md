# kc_osm

Scripting support for Dark Engine games (Thief, Thief 2, System Shock 2):
engine GUIDs and service identities, the values that cross the script
interface, hook bundle bookkeeping, game version detection, and the
keyring example's tool-selection rules.

## Layout

- `src/` — the verified library (Verus).
  - `text.rs`: ASCII rendering of numbers, UTF-8 decoding of engine bytes.
  - `guid.rs`: LG-style GUIDs, their textual form, the script service table.
  - `hooky.rs`: hook result codes and the standard named-pointer GUIDs.
  - `bundle.rs`: bundle entries and the decisions around peer messaging.
  - `osm.rs`: object/link identifiers, `MultiParm` values and their raw form,
    door and body enums.
  - `services.rs`: game version detection, per-version method slots, and the
    interpretation of what engine services return.
  - `keyring.rs`: lock matching and key/pick selection.
  - `macros.rs`: the naming rules the script macros follow.
- `tests/` — tests run against the compiled library with its outside crates.
- `app/` — the Windows/COM side: FFI declarations, vtable calls, message
  structs, proc-macro token building. It calls into the library for every
  decision and is not verified.
