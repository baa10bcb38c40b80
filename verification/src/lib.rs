//! Verified core of the wsentry terminal monitor.

pub mod action;
pub mod app;
pub mod cli;
pub mod collector;
pub mod config;
pub mod doctor;
pub mod format;
pub mod health;
pub mod logs;
pub mod model;
pub mod report;
pub mod runtime;
pub mod seqs;
pub mod sockets;
pub mod sort;
pub mod terminal;
pub mod text;
pub mod time;
pub mod ui;
