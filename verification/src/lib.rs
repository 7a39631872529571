//! Layout, bookkeeping and decision logic of a small taskbar system monitor.

pub mod metric;
pub mod monitor;
pub mod render;
pub mod util;
pub mod widget;
pub mod window;
