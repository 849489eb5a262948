# win-glide (verified core)

win-glide moves and resizes the foreground Windows window with the arrow
keys: a global hotkey starts a "glide" session, arrows apply momentum-based
thrust, Shift/Alt + arrows grow or shrink the window, and another hotkey
centers the window on its monitor's work area.

- `src/` is the verified library (Verus): rectangle geometry (centering,
  keeping a moved window partly visible), the glide session state machine,
  the keyboard/mouse hook decisions, hotkey naming, shell-window exclusion
  rules, resize-edge selection and the overlay layout.
- `app/` is the Windows program around it: Win32 hooks, hotkeys and window
  management, the floating-point physics, the `tiny-skia` overlay renderer
  and the JSON configuration file.
- `tests/` exercises the library on concrete values.
