//! Reusable agent workspaces: leasing them from a pool, resetting them, and moving
//! their work to pull requests.
//!
//! The procedures here do nothing to the outside world by themselves. Each one reads
//! the answers to what it asked for before from a [`flow::Tape`], and where it needs one
//! more, it stops with the [`flow::Action`] to perform. A driver performs the action,
//! appends the answer and runs the procedure again. What a procedure does is stated as
//! a [`flow::Flow`] over the answers, and what holds of all of them is proved in
//! [`laws`].

#![verifier::loop_isolation(false)]

pub mod app;
pub mod args;
pub mod audit;
pub mod calendar;
pub mod change;
pub mod cli;
pub mod command_runner;
pub mod config;
pub mod ensure;
pub mod error;
pub mod events;
pub mod exclude;
pub mod flow;
pub mod gc;
pub mod git;
pub mod grammar;
pub mod health;
pub mod jj;
pub mod json;
pub mod laws;
pub mod lease;
pub mod number;
pub mod order;
pub mod outside;
pub mod paths;
pub mod pool;
pub mod pool_gc;
pub mod pr;
pub mod pr_ensure;
pub mod pr_push;
pub mod reconcile;
pub mod records;
pub mod render;
pub mod repo;
pub mod report;
pub mod reset;
pub mod resume;
pub mod scan;
pub mod setup;
pub mod split;
pub mod text;
pub mod workspace;
