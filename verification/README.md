# mastertech

The decisions, texts and wire formats behind the Mastertech service
workstation, written in Verus and proved against their contracts.

- `src/` — the verified library, one module per area: the direct-TCP admin
  protocol (`tcp_frames`), the remote console (`remote`), directory copies
  (`file_copy`), the file browser, the Scripts tab and its queue (`scripts`),
  antivirus installers, installed and startup programs, scheduled tasks, the
  TUR sheet and its AI-assist prompt (`tur`), Shopify orders, releases and
  self-update (`github`), kernel crash triage (`minidump`), the terminal-mode
  form, and the dates written through chrono.
- `tests/` — tests of the library on concrete values.
- `app/` — a command-line program around the library: directory copies, the
  admin listener, profile discovery, PowerShell queries and hex dumps.
