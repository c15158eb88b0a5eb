//! Deploy-launcher core: text handling, provider wiring, env files and the
//! launcher's state machines, with their contracts.

pub mod text;
pub mod envs;
pub mod provider;
pub mod naming;
pub mod spillover;
pub mod eyes;
pub mod state;
pub mod keys;
pub mod api;
pub mod recipe;
pub mod deploy;
pub mod pipeline;
pub mod auth;
pub mod audio;
pub mod agent;
pub mod pricing;
pub mod turn;
pub mod schema;
