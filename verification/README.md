# chiaro

The verified core of Chiaroscuro, a desktop viewer for iRacing telemetry and
car setups. Every function under `src/` is checked by Verus against its
`requires`/`ensures` contract.

## Layout

- `src/irsdk/` — the iRacing SDK data: typed telemetry frames and keys, the
  binary layout of `.ibt` files (headers, variable headers, record values,
  and `parse_ibt_layout`, which checks a whole file's metadata), optional
  telemetry channels and samples, and the client that hands each update on
  once.
- `src/session_metadata.rs` — what the screens take from the session
  information document: the course, car, session and conditions shown on the
  dashboard, and the summary and sections of the Car Setup screen.
- `src/live_telemetry.rs` — batching of live samples and when a batch is due.
- `src/dashboard*.rs`, `src/layout.rs`, `src/flags.rs` — the Telemetry
  dashboard: card ids, persisted layouts and their normalization, and the
  dashboard state machine (tabs, collapse, maximize, drag and drop).
- `src/setup*.rs`, `src/car_setup_state.rs`, `src/vehicle.rs` — the Car Setup
  screen: setup sections built from the session's YAML values, the corner
  comparison tables, vehicle texts, and the screen's state machine.
- `src/config.rs` — the desktop settings and how both screens' layouts are
  kept in them side by side.
- `src/i18n.rs`, `src/navigation.rs`, `src/settings.rs`, `src/actions.rs`,
  `src/workspace.rs`, `src/comparison.rs`, `src/text.rs` — translations,
  navigation, settings, application actions, reference-lap compatibility and
  string helpers.
- `tests/` — tests on concrete values.
- `app/` — a small program that reads and writes the settings file, restores
  the saved layouts, and reads an `.ibt` recording named on its command line
  (the session information YAML is read there with serde); the iced desktop
  shell is not part of it.

The laws of the library (round trips of persisted layouts, invariants kept by
every message, uniqueness of normal forms) are public `proof fn`s next to the
functions they speak of.
