//! The logic of a game launcher: what it shows, what it downloads, which game
//! files it trusts and how it swaps them.
pub mod cancel;
pub mod config;
pub mod digest;
pub mod file_download;
pub mod file_download_laws;
pub mod hd_cleanup;
pub mod hd_cleanup_laws;
pub mod mode;
pub mod mode_switch;
pub mod mode_switch_laws;
pub mod pack_disk_laws;
pub mod pack_download;
pub mod pack_download_laws;
pub mod part_stream;
pub mod part_stream_laws;
pub mod request;
pub mod resume_laws;
pub mod session;
pub mod status;
pub mod text;
pub mod updater;
pub mod view_laws;
pub mod window;
