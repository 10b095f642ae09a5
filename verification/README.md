# sudachi_plugin

Plugin discovery and registration for a morphological analyzer, written in
Verus: the library states its behaviour in contracts and proves them.

Layout of `src/`:

- `naming` — shared-object file names for plugins given by bare names
  (`dir/foo` → `dir/libfoo.so` on Linux/FreeBSD, `dir/libfoo.dylib` on macOS),
  with the Windows and macOS file-name conventions in
  `naming/windows.rs` and `naming/macos.rs`.
- `loader` — candidate paths from a resolver, the step-by-step search for the
  first existing candidate, and the cache of opened libraries.
- `config` — what the registry reads of a plugin's JSON settings.
- `registry` — registered factories, where a plugin class comes from, and the
  loaded plugins kept one per class in ascending class order.
- `load` — the loading of every configured plugin as a state machine: it says
  what to do next and takes the outcome of each step.
- `container` — read access to loaded plugins and the plugins of every kind.
- `error` — plugin and loading errors.
- `keyed`, `name_order` — the map model of keyed vectors and the order of names.
- `laws` — properties of the library as a whole.

`app/` holds the host side: JSON settings, file-system probing, opening shared
objects with `libloading`, calling plugin code, and error messages.
