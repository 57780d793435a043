//! A verified core for an AI model proxy: routing of requests to upstream
//! providers, management of providers and routing rules, conversion between
//! the OpenAI and Anthropic message formats, and the small computations of
//! the server and its clients.

use vstd::prelude::*;

pub mod client_api;
pub mod config;
pub mod convert;
pub mod crud;
pub mod desktop;
pub mod error;
pub mod log_store;
pub mod model;
pub mod pages;
pub mod routing;
pub mod state;
pub mod stream;
pub mod text;
pub mod upstream;

verus! {

} // verus!
