pub mod text;
pub mod devices;
pub mod session;
pub mod inject;
pub mod wav;
pub mod context;
pub mod settings;
pub mod openai;
pub mod hotkeys;
