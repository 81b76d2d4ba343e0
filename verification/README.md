# zephyr

The backend logic of Zephyr, a control center for ASUS laptops on Linux that
talks to `asusd`, `supergfxd` and `power-profiles-daemon` over D-Bus, written in
Verus and proved against its contracts.

## Layout

- `src/` — the verified library.
  - `text` — character-level parsing and formatting, the vocabulary of the contracts.
  - `bus` — D-Bus property values as plain values, and how they are read.
  - `profiles`, `gfx`, `power_profiles`, `lighting`, `fan_curve` — the daemons'
    names and codes: platform profiles, graphics modes, power profiles, Aura and
    Slash modes, brightness levels, fan curves.
  - `objects` — which asusd objects offer an interface.
  - `status` — each daemon's status section, built from what the bus answered.
  - `sections`, `dashboard` — what each dashboard section shows when its daemon
    or interface is missing, and the daemons' health.
  - `writes` — changes to the daemons as ordered plans of bus attempts, the rule
    by which a plan is carried out, and the order of changes that take several plans.
  - `perf` — CPU, GPU and memory figures.
  - `settings`, `state`, `compare` — the user's settings, the dashboard held, and
    when a fresh one is published.
  - `tray` — the tray menu's entries in order (labels, ids, toggles, separators,
    submenus), and what each entry does.
- `tests/` — tests of the library on concrete values.
- `app/` — the desktop shell around the library: the tauri application, the
  D-Bus adapters, file and system readers.
