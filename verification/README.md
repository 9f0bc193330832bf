# tappad

The verified core of TapPad, which lets a phone drive the pointer, keyboard,
clipboard and named desktop actions of a paired computer.

`src/` is a Verus library whose functions carry contracts that Verus proves;
the few calls into other crates (base64, getrandom, qrcode, the clock) sit
behind small trusted wrappers whose contracts say what those crates promise:

- `actions`, `codex`, `laws`, `probe_laws`: the action registry of each platform, the
  capability of each action, validation before execution, and the Codex voice
  shortcuts (accelerator parsing, keybinding probes, foreground checks), and
  the laws that hold across them, the key tables and the diagnostics.
- `protocol`, `backend`, `input_chord`: client messages, routing with the
  single pointer owner, the plan for each backend effect, held input and its
  release on disconnect, paste truncation, asset paths.
- `settings`, `host_surface`, `linux_surface`, `windows_surface`, `windows_input`,
  `rust_host`: settings, host ids, pairing URLs and tokens, the mDNS alias and
  DNS-SD properties, the Windows key table, and what each host surface shows.
- `diagnostics`: runtime evidence, attempt records and the copied summary.
- `host`, `host_input`, `connections`, `metadata`, `uinput`: the Omarchy
  host's authorization, naming, pairing QR code, client tracking, key
  mapping, Codex command metadata with its cache, and the uinput event
  sequences.
- `text`, `order`: character-level helpers and a sorted text set.

`app/` is the command-line host around the library: the settings file, the
machine probes, the user service, mDNS publication (mdns-sd), the HTTP and
WebSocket server (axum on tokio), the Codex app archive, the uinput device, the clipboard and the action commands. `tests/`
exercises the library on concrete values.
