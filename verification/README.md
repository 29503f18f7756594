# ShellShop

ShellShop is a terminal shop served over SSH: every client that connects gets
its own full-screen shop session (account, cart, shop and help tabs) drawn with
ratatui; `--local` runs the same shop on the current terminal.

The library in `src/` is verified with Verus:

- `keys`: decoding raw terminal bytes into keys (arrows as CSI/SS3 sequences,
  Escape, Ctrl+C, Enter, characters), with the laws that decoding only
  consumes a prefix, waits only while more bytes can still complete an
  escape sequence, and does not depend on later bytes.
- `app`: the screen state machine and how input drives it, with its laws
  (tab and menu cycles, the theme toggle, input split into chunks behaves as
  input at once).
- `channel_loop`: the rounds of a session over SSH: the splash screen, then
  the main screen, and when the session ends.
- `layout`, `border`: where the splash and main screens put their parts:
  which constraints each screen hands to ratatui's layout solver and which of
  the solver's parts becomes the frame, the tab bar, the body, the banner or
  the gauge (where the solver puts its boundaries is stated only as one of
  its answers for those constraints); and the animated frame.
- `cli`: command-line options.
- `server`: client numbering, the per-session request rules (the shop starts
  at most once per session; input stops after close or end-of-file), output
  batching, and the server's timing settings.
- `host_key`: reading or generating the Ed25519 host key.

`app/` is the program around it: the SSH server on russh and tokio, the TUI
thread and its event loops, drawing, and file access.
