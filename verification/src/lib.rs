//! The verified core of a screen-mirroring client: stream framing, the
//! recording state machine, the offset clock, the option and flag logic of
//! the command line and the control panel.

pub mod text;
pub mod clock;
pub mod demuxer;
pub mod recorder;
pub mod paths;
pub mod muxer;
pub mod mirror_host;
pub mod option_values;
pub mod options;
pub mod failure;
pub mod panel_command;
pub mod panel_command_line;
pub mod panel_files;
pub mod panel_status;
pub mod delay_buffer;
pub mod convert_plan;
pub mod decode_watch;
pub mod mirror_view;
pub mod panel_actions;
pub mod panel_log;
pub mod hw_devices;
