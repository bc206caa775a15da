use vstd::prelude::*;

pub mod app;
pub mod args;
pub mod chat;
pub mod config;
pub mod context;
pub mod health;
pub mod keys;
pub mod markdown;
pub mod monologue;
pub mod session;
pub mod ollama;
pub mod process;
pub mod text;
pub mod tools;
pub mod ui;
pub mod update;

verus! {
} // verus!
