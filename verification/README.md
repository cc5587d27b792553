# clash_verge

The start-up, deep-link and main-window logic of the Clash Verge desktop
client, as a Verus-verified library (`src/`) and a thin application crate
(`app/`) that performs what the library decides.

- `src/ui_ready.rs` – the UI loading stages, the ready flag and the task that
  waits for it.
- `src/window.rs` – creating or showing the main window, with the guard against
  building it twice.
- `src/scheme.rs`, `src/text.rs` – reading `clash://` / `clash-verge://` deep
  links (proxy switch, subscription import).
- `src/startup_import.rs` – importing the subscription URLs configured for
  start-up, with retries and de-duplication.
- `src/startup.rs` – profile switching with retries, waiting for the core,
  launch-at-login, interface refresh.
- `src/server.rs` – the single-instance check, the PAC file, stopping the
  embedded server.
- `app/` – global state, timers, the embedded HTTP server and the calls into
  the rest of the desktop application (through the `Host` trait).
