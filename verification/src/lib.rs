//! The logic of a GitHub Copilot provider with two ways to Copilot: its API, and
//! its official CLI, which is run as a child process and spoken to over the
//! Agent Client Protocol.
//!
//! Nothing here reads a file, a socket or a clock of its own accord. What
//! happens is handed in as plain values, and what is to be done comes back as
//! plain values:
//!
//! - [`provider`] holds a session's settings, [`transport`] what the environment
//!   says of them, [`catalog`] the list of models, [`identity`] the identifiers
//!   under which requests are made, [`model`] the rules on model names and
//!   [`initiator`] those on who has begun a turn.
//! - On the native transport, [`request`] makes the request, [`retry`] decides
//!   how often it is tried, and [`sse`] reads the response; [`stream_text`] and
//!   [`stream_tools`] say what a response carries as a whole.
//! - On the official transport, [`prompt`] makes the prompt, [`tool_policy`] says
//!   which tools the CLI has, [`process`] and [`connection`] how it is started,
//!   [`lifecycle`] which turn is active, [`runtime`] how a turn runs, and
//!   [`acp_client`] what the CLI is answered.
//! - [`dispatch`] chooses among this provider and others. [`message`], [`json`],
//!   [`text`] and [`error`] are what the rest is made of.

pub mod acp_client;
pub mod catalog;
pub mod connection;
pub mod dispatch;
pub mod error;
pub mod identity;
pub mod initiator;
pub mod json;
pub mod lifecycle;
pub mod message;
pub mod model;
pub mod process;
pub mod prompt;
pub mod provider;
pub mod request;
pub mod retry;
pub mod runtime;
pub mod sse;
pub mod stream_text;
pub mod stream_tools;
pub mod text;
pub mod tool_policy;
pub mod transport;
