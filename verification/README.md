# codex_bridge

A verified library behind Codex's two WSL-to-Windows bridges: the desktop
pet overlay and Discord Rich Presence.

- `src/` is the library, written in Verus. Verus proves every function's
  contract, except for a handful of small trusted wrappers around the
  standard library and the `image` crate (`external_body` functions), whose
  contracts are stated from those libraries' behaviour and believed:
  - `pets`, `discord_presence`: what the session publishes, which helper
    command each update becomes (repeats are dropped), where the Windows
    helpers are looked for, and the PowerShell scripts that start them.
  - `pets_windows`: the overlay's state machine, animations, glyph font,
    canvas painting (rounded rectangles, text, word wrapping, scaled
    sprites), and the window-message decisions.
  - `discord_presence_windows`: the activity handed to the Discord Social
    SDK for each command, and the SDK calls each command becomes.
  - `tui`: the summaries the chat view derives from its status.
  - `winpath`, `hostpath`, `text`: path mapping, quoting and text helpers.
- `tests/` runs the library on concrete values.
- `app/` is the unverified shell: JSON on the pipes, the Tokio tasks that
  drive the helpers, the Win32 window, and the Discord SDK calls. The
  overlay embeds its spritesheets from `app/assets/<pet>.webp`.
