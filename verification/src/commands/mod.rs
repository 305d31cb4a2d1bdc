//! The commands of the program. Each command decides here what is to be
//! done; its caller reads the file system, sends the requests and reports.

pub mod alias;
pub mod default;
pub mod env;
pub mod install;
pub mod list;
pub mod remove;
pub mod windows;
