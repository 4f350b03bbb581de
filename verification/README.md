# whisrs (verified core)

The decision logic of the whisrs dictation daemon, written in Verus and
proved against its contracts:

- `hooks`: which recording hook a state change fires, and the media-pause
  bookkeeping that makes a recording stop resume exactly the MPRIS players
  the daemon itself paused;
- `mpris`: which session-bus names are MPRIS players;
- `service`: systemd/OpenRC detection, help-text commands, and the
  installed/active/restart queries as machines over command outcomes;
- `window`: focused-window and window-class resolution for sway trees and
  X11 `WM_CLASS` replies, and compositor detection;
- `transcription::asr_sidecar`: what an HTTP ASR sidecar request may carry
  and how its replies are read;
- `cli`: what the command-line client prints.

`app/` holds the I/O around it: D-Bus, processes, IPC, X11 and HTTP.
