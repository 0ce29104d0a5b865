# desktop_pet

The decision logic of a transparent desktop pet that follows the pointer,
jumps when clicked, can be dragged, retreats to the bottom of the screen when
flung off, and strolls there; plus its custom-skin resolution and its
system-status panel toggle. All of it is written in Verus and verified.

- `src/` — the verified library:
  - `skin` — which picture each sprite uses, data URLs of custom sprites, tray icon pixels;
  - `imaging` — the calls into the `image` and `base64` crates, with their contracts;
  - `pointer`, `motion` — the left-button press/drag/click machine and the pet's modes and heading;
  - `animation` — walking-frame cycle and the resting-place announcement pace;
  - `stats` — the right-click panel toggle, its refresh pace, battery reading;
  - `instances` — which announcements of other running pets still count;
  - `input`, `tray`, `hit_mask`, `util` — small readings and decisions;
  - `laws` — properties spanning several frames or functions.
- `tests/` — tests on concrete values.
- `app/` — the Tauri program around the library: Win32 input, the frame loop
  with its floating-point kinematics, files, JSON, the windows and the tray.
