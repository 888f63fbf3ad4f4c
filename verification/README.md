# tdu2_runtime_patch

A runtime patch layer for Test Drive Unlimited 2, loaded by the game as a
proxy `version.dll`. The logic is a Verus-verified library; a thin Win32
crate around it does the I/O.

- `src/` — the verified library:
  - `config`, `config_laws` — the `tdu2-runtime-patch.ini` format: reading,
    the default file, and laws such as "comments change nothing", "a later
    line wins" and "a written file reads back".
  - `patch_utils`, `patches`, `fov`, `hooks` — the bytes written into the game
    image: patch groups, `jmp rel32` encoding, the FOV code cave, vtable
    detours.
  - `overlay_input`, `overlay_state` — the overlay's input translation for
    Dear ImGui, the F8 toggle, cursor capture and the window procedure hook.
  - `version_proxy` — which system export each `version.dll` export forwards
    to.
  - `runtime_log`, `text` — log records and character-level text handling.
- `tests/` — tests of the library on concrete values.
- `app/` — the DLL: `DllMain`, the patch thread, memory writes, the log file,
  the exported `version.dll` functions and the Direct3D 9 / DirectInput /
  Dear ImGui glue.
