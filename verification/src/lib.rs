pub mod check;
pub mod cli;
pub mod commands;
pub mod path;
pub mod spec;
pub mod spec_loader;
pub mod text;
