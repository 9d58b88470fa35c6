//! Discovery, inspection and mutation of Python environments, and the
//! session state machine that sequences them.
//!
//! The library starts no process and touches no file. It says which tools to
//! run and where to look ([`strategy`], [`detect`]), judges what came back
//! ([`inspect`], [`mutate`]), and keeps the state of an interactive session
//! ([`app`], [`session`], [`view`]). Its caller does the outside work and
//! hands the results over as plain values.

pub mod app;
pub mod detect;
pub mod failure;
pub mod inspect;
pub mod json;
pub mod mutate;
pub mod paths;
pub mod process;
pub mod python;
pub mod session;
pub mod strategy;
pub mod text;
pub mod view;

pub use app::{App, AppState, DialogState, Focus};
pub use python::{Package, PythonEnvironment};
