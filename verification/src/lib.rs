//! Verified core of the gib package manager: package naming rules, package
//! archive inspection, the request handling of the registry server, and the
//! bookkeeping of the command line client.

pub mod names;
pub mod response;
pub mod common;
pub mod archive;
pub mod upload;
pub mod models;
pub mod fetch;
pub mod login;
pub mod client;
pub mod basic_server;
pub mod web;
pub mod tree_copy;
