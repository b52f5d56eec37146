pub mod call;
pub mod command;
pub mod failure;
pub mod json;
pub mod laws;
pub mod plugin;
pub mod relay;
pub mod reply;
pub mod request;
pub mod text;
