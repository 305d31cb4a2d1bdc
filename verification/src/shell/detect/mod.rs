//! Finding the shell that started the program among its ancestors. The
//! caller asks the operating system about the processes; what is made of
//! the answers is decided here.

pub mod unix;
pub mod windows;
