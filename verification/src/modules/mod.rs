pub mod docker;
pub mod locale;
pub mod nvm;
pub mod shell;
pub mod sources;
pub mod ssh;
pub mod ssh_server;
pub mod tools;
pub mod vim;
