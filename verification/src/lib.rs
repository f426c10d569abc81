pub mod app;
pub mod cli;
pub mod clock;
pub mod config;
pub mod handler;
pub mod language;
pub mod menu;
pub mod pause;
pub mod selection;
pub mod settings;
pub mod stats;
pub mod typing;
