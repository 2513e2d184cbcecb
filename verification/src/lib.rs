//! Core of `irgsh-cli`, a command line client for a remote build-pipeline
//! service ("chief"). A maintainer initializes local credentials once, then
//! submits a package and source pair for building, or queries pipeline
//! status.
//!
//! This library holds the verified logic of the client: the configuration
//! record and its lifecycle decisions, the command dispatcher, the fixed
//! message texts, the configuration file locations, and the builder for the
//! submission request (target URL and JSON payload). The thin unverified
//! shell around it parses arguments, touches the filesystem, asks the
//! interactive confirmation question, and performs the one blocking HTTP
//! call, handing plain values in and out.

pub mod config;
pub mod dispatch;
pub mod json;
pub mod messages;
pub mod paths;
pub mod request;
