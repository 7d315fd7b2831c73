//! A verified library for downloading a Stripe account: the Stripe API data
//! model, cursor pagination, the request queue's scheduling rules, the rules
//! for applying Stripe events, and the command-line and logging configuration.
pub mod paging;
pub mod req_params;
pub mod responses;
pub mod types;
pub mod queue;
pub mod text;
pub mod outside;
pub mod apply_events;
pub mod log_config;
pub mod config;
pub mod download;
pub mod dates;
