//! A terminal input core: standard input held in raw mode, with its settings put
//! back when the handle goes away, and key presses turned into text to show.

pub mod editor;
pub mod error;
pub mod mode;
pub mod screen;
pub mod stdin;

pub use editor::Editor;
pub use error::Error;
pub use screen::Stdout;
pub use stdin::StdinRawMode;
