//! Navigation state, detail projection and text formatting for a terminal
//! browser of kernel eBPF map metadata.

pub mod detail;
pub mod maps;
pub mod record;
pub mod text;
