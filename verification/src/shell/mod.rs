//! The shells that environment settings can be written for, and how the
//! shell that started the program is found.

pub mod bash;
pub mod detect;
pub mod powershell;
pub mod shell;
pub mod windows_cmd;
pub mod zsh;
