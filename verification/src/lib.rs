//! Launch, supervision and configuration logic of the DeepSeek Harness desktop launcher.
pub mod cache;
pub mod changelog;
pub mod command;
pub mod logs;
pub mod menu;
pub mod paths;
pub mod session;
pub mod settings;
pub mod supervisor;
pub mod text;
