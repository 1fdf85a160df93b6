pub mod text;
pub mod errors;
pub mod action;
pub mod commands;
pub mod task;
pub mod config;
pub mod tui;
pub mod app;
pub mod tools;
pub mod tool_call;
pub mod paths;
pub mod launch;
