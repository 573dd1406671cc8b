# scrcpy_panel

The decision-making core of an Android screen-mirroring client and its control
panel, written in Verus: every function in `src/` carries a contract that Verus
proves.

- `src/` — the library. The stream framing (`demuxer`), the recording state
  machine and packet loop (`recorder`, `muxer`), the device clock and frame
  delay (`clock`, `delay_buffer`), how a decoded frame is written out
  (`convert_plan`, `decode_watch`), which devices a hardware decoder is
  offered (`hw_devices`), the mirror window's geometry and view state
  (`mirror_host`, `mirror_view`), the command line's derived options
  (`options`, `option_values`), and the panel: its form and flags
  (`panel_command`, `panel_command_line`), its buttons (`panel_actions`), files
  (`panel_files`), status lines (`panel_status`), log (`panel_log`) and error
  cards (`failure`). `text` and `paths` are the string and path helpers they
  share.
- `app/` — ordinary Rust around the library: clap's view of the command line,
  the sockets, the recorder's and the frame delay's threads, the JSON files the
  panel keeps, and its child processes.
- `tests/` — tests run against the compiled library.

The few calls into code Verus does not read (`str::to_lowercase`,
`String::push`, `Path::file_name`, `Path::parent`, `SystemTime::now`,
`SystemTime::duration_since`, `Duration::as_secs`) are wrappers marked
`#[verifier::external_body]`, each with a doc comment saying what its contract
claims.
