//! Interactive timestamped log entries: the entry lifecycle, the duration
//! arithmetic, the terminal-rendering sink and the key-event controller.

pub mod clock;
pub mod controller;
pub mod digits;
pub mod entry;
pub mod writer;
