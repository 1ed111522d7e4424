//! A memory of code for assistants: what a project's files define and depend on, the
//! lessons learned in them, and who may read and change all that.
//!
//! The library holds what is decided and computed. It does no input and output of its
//! own: where something is to be read, sent or asked, it says what, and takes the
//! answer as a value.
//!
//! - Reading source: [`language`], [`syntax`], [`heuristics`], [`parser`], [`scan`].
//! - Files and projects: [`paths`], [`fs_utils`], [`projects`], [`watch`], [`config`].
//! - The graph: [`records`], [`statements`], [`graph`], [`merge`], [`tree`].
//! - The protocol for assistants: [`json`], [`mcp_common`], [`tool_call`], [`rpc`].
//! - The server: [`api`], [`credentials`], [`rate_limit`], [`server`], [`sessions`].
//! - The command line client: [`status`], [`doctor`], [`init`], [`deregister`],
//!   [`update`], [`mcp_setup`], [`processes`], [`reports`].
//! - Texts: [`text`].

pub mod api;
pub mod config;
pub mod credentials;
pub mod deregister;
pub mod doctor;
pub mod fs_utils;
pub mod graph;
pub mod heuristics;
pub mod init;
pub mod json;
pub mod language;
pub mod mcp_common;
pub mod mcp_setup;
pub mod merge;
pub mod parser;
pub mod paths;
pub mod processes;
pub mod projects;
pub mod rate_limit;
pub mod records;
pub mod reports;
pub mod rpc;
pub mod scan;
pub mod server;
pub mod sessions;
pub mod statements;
pub mod status;
pub mod syntax;
pub mod text;
pub mod tool_call;
pub mod tree;
pub mod update;
pub mod watch;
