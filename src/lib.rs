// Orchestration of device flashing: flash-package manifests, command scripts
// and their placeholders, the engine's progress events, the interactive
// shell, and the sequence of a whole flash with its cleanup.
pub mod devices;
pub mod flash;
pub mod manifest;
pub mod notification;
pub mod script;
pub mod shell;
pub mod text;
