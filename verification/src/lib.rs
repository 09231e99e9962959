pub mod app;
pub mod config;
pub mod distro;
pub mod modules;
pub mod text;
pub mod utils;
pub mod ui;
pub mod i18n;
pub mod execute;
pub mod view;
