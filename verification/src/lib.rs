//! A personal task tracker: the task model, the store of tasks and the
//! decisions of the interactive command loop.

pub mod cli;
pub mod models;
pub mod storage;
pub mod utils;
