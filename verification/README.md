# saladict

The decision logic of the Saladict desktop translator, verified with Verus.

- `src/cli.rs`: command-line flags to actions, and the window each action opens.
- `src/lang_detect.rs`: Chinese/English detection through lingua, mapped to language codes.
- `src/selection.rs`: how the selected text is read (X11, Wayland PRIMARY, Wayland clipboard).
- `src/tray_labels.rs`, `src/tray.rs`: the tray menu's labels, its items, and what clicks on it do.
- `src/settings.rs`, `src/startup.rs`: how stored settings are read and what start-up does with them.
- `src/text.rs`: whitespace and trimming, as `str::trim` defines them.
- `app/`: the Tauri application around the library (windows, configuration store, processes).

A launch without any flag opens the input translation window. There is no
help action: the command line knows only the five window flags.
