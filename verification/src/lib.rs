//! Host metrics sampling and distribution: bounded history, threshold alerts
//! and the shared state that readers and the sampling loop exchange.

pub mod alert;
pub mod cli;
pub mod clock;
pub mod config;
pub mod dashboard;
pub mod display;
pub mod error;
pub mod handle;
pub mod history;
pub mod monitor;
pub mod order;
pub mod state;
pub mod storage;
pub mod store;
pub mod text;
