//! Automation for cutting release branches on a hosted Git service: a verified
//! core that resolves configuration, builds the two API request strings, and
//! classifies HTTP responses into typed outcomes.

pub mod args;
pub mod cli;
pub mod decimal;
pub mod gitlab;
pub mod http;
pub mod util;
