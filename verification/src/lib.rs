pub mod cjk;
pub mod cjkstring;
pub mod cmd_queue;
pub mod cursor;
pub mod editor;
pub mod keys;
pub mod line_buffer;
pub mod menu_bar;
pub mod simple_dialog;
