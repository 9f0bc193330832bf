use vstd::prelude::*;

pub mod actions;
pub mod backend;
pub mod codex;
pub mod connections;
pub mod diagnostics;
pub mod host;
pub mod host_input;
pub mod host_surface;
pub mod input_chord;
pub mod laws;
pub mod linux_surface;
pub mod metadata;
pub mod order;
pub mod probe_laws;
pub mod table_laws;
pub mod protocol;
pub mod rust_host;
pub mod settings;
pub mod uinput;
pub mod windows_input;
pub mod windows_surface;
pub mod text;

verus! {

} // verus!
